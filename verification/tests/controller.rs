use catime::{
    AppCommand, AppConfig, AppController, AppEvent, TimerMode, TimerModeConfig, TimerStatus,
    TrayLeftClickAction,
};

fn countdown_config(secs: u64) -> AppConfig {
    let mut c = AppConfig::default();
    c.mode = TimerModeConfig::Countdown;
    c.duration_secs = secs;
    c
}

#[test]
fn controller_starts_from_config() {
    let c = AppController::new(countdown_config(90));
    let vs = c.view_state();
    assert_eq!(vs.display_time, "01:30");
    assert_eq!(vs.mode, TimerMode::Countdown);
    assert_eq!(vs.status, TimerStatus::Idle);
    assert_eq!(vs.countdown_duration_secs, 90);
    assert!(vs.window_visible);
    assert_eq!(c.engine().remaining_secs, 90);
}

#[test]
fn timer_commands_update_view_and_config() {
    let mut c = AppController::new(countdown_config(3));
    assert_eq!(c.handle(AppCommand::Start), vec![AppEvent::TimerUpdated]);
    assert_eq!(c.handle(AppCommand::Tick), vec![AppEvent::TimerUpdated]);
    assert_eq!(c.view_state().display_time, "00:02");
    assert_eq!(c.view_state().status, TimerStatus::Running);
    assert_eq!(c.handle(AppCommand::SwitchMode(TimerMode::Stopwatch)), vec![AppEvent::TimerUpdated]);
    assert_eq!(c.config().mode, TimerModeConfig::Stopwatch);
    assert_eq!(c.view_state().display_time, "00:00");
    assert_eq!(c.handle(AppCommand::SetCountdown(600)), vec![AppEvent::TimerUpdated]);
    assert_eq!(c.config().duration_secs, 600);
    assert_eq!(c.view_state().countdown_duration_secs, 600);
}

#[test]
fn countdown_finish_reaches_view() {
    let mut c = AppController::new(countdown_config(1));
    c.handle(AppCommand::Start);
    assert_eq!(c.handle(AppCommand::Tick), vec![AppEvent::TimerFinished]);
    assert_eq!(c.view_state().status, TimerStatus::Finished);
    assert_eq!(c.view_state().display_time, "00:00");
}

#[test]
fn window_commands() {
    let mut c = AppController::new(AppConfig::default());
    assert!(c.handle(AppCommand::ShowWindow).is_empty());
    assert_eq!(c.handle(AppCommand::HideWindow), vec![AppEvent::WindowShouldHide]);
    assert!(!c.view_state().window_visible);
    assert!(c.handle(AppCommand::HideWindow).is_empty());
    assert_eq!(c.handle(AppCommand::ToggleWindow), vec![AppEvent::WindowShouldShow]);
    assert_eq!(c.handle(AppCommand::ToggleWindow), vec![AppEvent::WindowShouldHide]);
    assert_eq!(c.handle(AppCommand::ShowWindow), vec![AppEvent::WindowShouldShow]);
    assert!(c.view_state().window_visible);
}

#[test]
fn tray_click_follows_config() {
    let mut cfg = AppConfig::default();
    cfg.tray.left_click_action = TrayLeftClickAction::Nothing;
    let mut c = AppController::new(cfg);
    assert!(c.handle(AppCommand::TrayLeftClick).is_empty());
    assert!(c.view_state().window_visible);

    let mut cfg = AppConfig::default();
    cfg.tray.left_click_action = TrayLeftClickAction::ShowWindow;
    let mut c = AppController::new(cfg);
    c.handle(AppCommand::HideWindow);
    assert_eq!(c.handle(AppCommand::TrayLeftClick), vec![AppEvent::WindowShouldShow]);
    assert!(c.handle(AppCommand::TrayLeftClick).is_empty());

    let mut c = AppController::new(AppConfig::default());
    assert_eq!(c.handle(AppCommand::TrayLeftClick), vec![AppEvent::WindowShouldHide]);
    assert_eq!(c.handle(AppCommand::TrayLeftClick), vec![AppEvent::WindowShouldShow]);
}

#[test]
fn quit_reports_and_changes_nothing() {
    let mut c = AppController::new(countdown_config(5));
    assert_eq!(c.handle(AppCommand::Quit), vec![AppEvent::AppShouldQuit]);
    assert_eq!(c.view_state().status, TimerStatus::Idle);
    assert!(c.view_state().window_visible);
}

#[test]
fn reload_applies_mode_and_duration() {
    let mut c = AppController::new(countdown_config(60));
    c.handle(AppCommand::Start);
    c.handle(AppCommand::Tick);
    let mut new_cfg = countdown_config(120);
    new_cfg.mode = TimerModeConfig::Stopwatch;
    let events = c.reload_config(Some(new_cfg));
    assert_eq!(events, vec![AppEvent::TimerUpdated, AppEvent::TimerUpdated]);
    assert_eq!(c.engine().mode, TimerMode::Stopwatch);
    assert_eq!(c.engine().status, TimerStatus::Idle);
    assert_eq!(c.engine().countdown_duration_secs, 120);
    assert_eq!(c.view_state().mode, TimerMode::Stopwatch);
    assert_eq!(c.config().duration_secs, 120);
}

#[test]
fn reload_unchanged_refreshes_once() {
    let mut c = AppController::new(countdown_config(60));
    c.handle(AppCommand::Start);
    c.handle(AppCommand::Tick);
    let mut new_cfg = countdown_config(60);
    new_cfg.always_on_top = false;
    assert_eq!(c.reload_config(Some(new_cfg)), vec![AppEvent::TimerUpdated]);
    assert_eq!(c.engine().remaining_secs, 59);
    assert_eq!(c.engine().status, TimerStatus::Running);
    assert!(!c.config().always_on_top);
}

#[test]
fn reload_duration_while_running_keeps_remaining() {
    let mut c = AppController::new(countdown_config(60));
    c.handle(AppCommand::Start);
    c.handle(AppCommand::Tick);
    assert_eq!(c.reload_config(Some(countdown_config(30))), vec![AppEvent::TimerUpdated]);
    assert_eq!(c.engine().remaining_secs, 59);
    assert_eq!(c.view_state().countdown_duration_secs, 30);
}

#[test]
fn failed_reload_changes_nothing() {
    let mut c = AppController::new(countdown_config(60));
    assert!(c.reload_config(None).is_empty());
    assert_eq!(c.config().duration_secs, 60);
}

#[test]
fn window_bounds_are_recorded() {
    let mut c = AppController::new(AppConfig::default());
    c.update_window_bounds(-5, 40, 400, 300);
    let w = &c.config().window;
    assert_eq!((w.x, w.y, w.width, w.height), (-5, 40, 400, 300));
    assert_eq!(w.dpi, None);
    assert!(!w.locked);
}
