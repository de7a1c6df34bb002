use catime::controller::follow_up_command;
use catime::duration_parse::accept_countdown_text;
use catime::watch::{is_relevant_kind, watch_step, ChangeKind, WatchAction, WatchInput};
use catime::{AppCommand, AppConfig, AppController, AppEvent, TimerMode, TimerModeConfig, TimerStatus};

#[test]
fn relevant_kinds() {
    assert!(is_relevant_kind(ChangeKind::Modify));
    assert!(is_relevant_kind(ChangeKind::Create));
    for k in [ChangeKind::Any, ChangeKind::Access, ChangeKind::Remove, ChangeKind::Other] {
        assert!(!is_relevant_kind(k));
    }
}

#[test]
fn debounce_sends_one_reload_after_quiet_window() {
    let (p, a) = watch_step(None, WatchInput::RelevantChange { now_ms: 1000 });
    assert_eq!((p, a), (Some(1000), WatchAction::Wait));
    let (p, a) = watch_step(p, WatchInput::RelevantChange { now_ms: 1150 });
    assert_eq!((p, a), (Some(1150), WatchAction::Wait));
    let (p, a) = watch_step(p, WatchInput::Timeout { now_ms: 1300 });
    assert_eq!((p, a), (Some(1150), WatchAction::Wait));
    let (p, a) = watch_step(p, WatchInput::OtherEvent);
    assert_eq!((p, a), (Some(1150), WatchAction::Wait));
    let (p, a) = watch_step(p, WatchInput::Timeout { now_ms: 1450 });
    assert_eq!((p, a), (None, WatchAction::SendReload));
    let (p, a) = watch_step(p, WatchInput::Timeout { now_ms: 5000 });
    assert_eq!((p, a), (None, WatchAction::Wait));
    let (p, a) = watch_step(p, WatchInput::Disconnected);
    assert_eq!((p, a), (None, WatchAction::Stop));
}

#[test]
fn countdown_text_must_be_positive() {
    assert_eq!(accept_countdown_text("25:00"), Some(1500));
    assert_eq!(accept_countdown_text(" 01:25:00 "), Some(5100));
    assert_eq!(accept_countdown_text("0"), None);
    assert_eq!(accept_countdown_text("00:00"), None);
    assert_eq!(accept_countdown_text("abc"), None);
}

#[test]
fn apply_countdown_setting_switches_and_sets() {
    let mut cfg = AppConfig::default();
    cfg.mode = TimerModeConfig::Stopwatch;
    let mut c = AppController::new(cfg);
    c.handle(AppCommand::Start);
    c.handle(AppCommand::Tick);
    let events = c.apply_countdown_setting(90);
    assert_eq!(events, vec![AppEvent::TimerUpdated, AppEvent::TimerUpdated]);
    assert_eq!(c.engine().mode, TimerMode::Countdown);
    assert_eq!(c.engine().status, TimerStatus::Idle);
    assert_eq!(c.engine().remaining_secs, 90);
    assert_eq!(c.config().mode, TimerModeConfig::Countdown);
    assert_eq!(c.config().duration_secs, 90);
    assert_eq!(c.view_state().display_time, "01:30");
}

#[test]
fn ticks_only_while_running_and_finish_shows_window() {
    let mut c = AppController::new(AppConfig::default());
    assert!(!c.wants_tick());
    c.handle(AppCommand::Start);
    assert!(c.wants_tick());
    c.handle(AppCommand::Pause);
    assert!(!c.wants_tick());
    assert_eq!(follow_up_command(AppEvent::TimerFinished), Some(AppCommand::ShowWindow));
    assert_eq!(follow_up_command(AppEvent::TimerUpdated), None);
    assert_eq!(follow_up_command(AppEvent::WindowShouldHide), None);
}
