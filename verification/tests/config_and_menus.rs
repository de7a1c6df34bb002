use catime::buttons::command_for_button;
use catime::tray_menu::{
    menu_id_to_command, MENU_COUNTDOWN, MENU_PAUSE, MENU_QUIT, MENU_RESET, MENU_SET_COUNTDOWN,
    MENU_START, MENU_STOPWATCH, MENU_TOGGLE,
};
use catime::window_geometry::initial_window;
use catime::{
    AppCommand, AppConfig, ButtonHit, FontConfig, TimerMode, TimerModeConfig, TimerStatus,
    TomlConfigRepository, TrayConfig, TrayLeftClickAction, WindowConfig,
};

#[test]
fn config_defaults() {
    let c = AppConfig::default();
    assert_eq!(c.mode, TimerModeConfig::Countdown);
    assert_eq!(c.duration_secs, 1500);
    assert!(c.always_on_top);
    assert_eq!(f32::from_bits(c.opacity_bits), 0.85f32);
    assert!(c.hot_reload);
    assert_eq!(c.window, WindowConfig { x: 100, y: 100, width: 320, height: 220, dpi: None, locked: false });
    let f = FontConfig::default();
    assert_eq!(f.family, "Segoe UI");
    assert_eq!(f32::from_bits(f.size_bits), 56.0f32);
    assert_eq!(f.color, "#FFFFFF");
    assert_eq!(
        TrayConfig::default(),
        TrayConfig { left_click_action: TrayLeftClickAction::ToggleWindow, show_remaining_tooltip: true }
    );
}

#[test]
fn mode_config_converts() {
    assert_eq!(TimerModeConfig::Stopwatch.to_core_mode(), TimerMode::Stopwatch);
    assert_eq!(TimerModeConfig::Countdown.to_core_mode(), TimerMode::Countdown);
}

#[test]
fn tray_menu_ids() {
    assert_eq!(menu_id_to_command(MENU_START), Some(AppCommand::Start));
    assert_eq!(menu_id_to_command(MENU_PAUSE), Some(AppCommand::Pause));
    assert_eq!(menu_id_to_command(MENU_RESET), Some(AppCommand::Reset));
    assert_eq!(menu_id_to_command(MENU_STOPWATCH), Some(AppCommand::SwitchMode(TimerMode::Stopwatch)));
    assert_eq!(menu_id_to_command(MENU_COUNTDOWN), Some(AppCommand::SwitchMode(TimerMode::Countdown)));
    assert_eq!(menu_id_to_command(MENU_TOGGLE), Some(AppCommand::ToggleWindow));
    assert_eq!(menu_id_to_command(MENU_QUIT), Some(AppCommand::Quit));
    assert_eq!(menu_id_to_command(MENU_SET_COUNTDOWN), None);
    assert_eq!(menu_id_to_command(0), None);
}

#[test]
fn main_buttons() {
    assert_eq!(command_for_button(ButtonHit::StartPause, TimerStatus::Running, TimerMode::Countdown), Some(AppCommand::Pause));
    assert_eq!(command_for_button(ButtonHit::StartPause, TimerStatus::Paused, TimerMode::Countdown), Some(AppCommand::Resume));
    assert_eq!(command_for_button(ButtonHit::StartPause, TimerStatus::Finished, TimerMode::Countdown), Some(AppCommand::Start));
    assert_eq!(command_for_button(ButtonHit::Reset, TimerStatus::Idle, TimerMode::Stopwatch), Some(AppCommand::Reset));
    assert_eq!(command_for_button(ButtonHit::SwitchMode, TimerStatus::Idle, TimerMode::Stopwatch), Some(AppCommand::SwitchMode(TimerMode::Countdown)));
    assert_eq!(command_for_button(ButtonHit::SwitchMode, TimerStatus::Idle, TimerMode::Countdown), Some(AppCommand::SwitchMode(TimerMode::Stopwatch)));
    assert_eq!(command_for_button(ButtonHit::NoButton, TimerStatus::Idle, TimerMode::Countdown), None);
}

#[test]
fn repository_keeps_path() {
    let p = std::path::PathBuf::from("/tmp/catime/config.toml");
    let r = TomlConfigRepository::new(p.clone());
    assert_eq!(r.path(), &p);
}

#[test]
fn window_geometry_rescales_and_normalizes() {
    let w = WindowConfig { x: 10, y: 20, width: 320, height: 220, dpi: Some(96), locked: false };
    let g = initial_window(&w, 192, 320, 220);
    assert_eq!((g.x, g.y, g.width, g.height), (10, 20, 640, 440));
    assert!(g.normalized);

    let w = WindowConfig { x: 0, y: 0, width: 400, height: 300, dpi: Some(96), locked: false };
    let g = initial_window(&w, 96, 320, 220);
    assert_eq!((g.width, g.height), (400, 300));
    assert!(!g.normalized);

    let w = WindowConfig { x: 0, y: 0, width: 300, height: 0, dpi: None, locked: false };
    let g = initial_window(&w, 96, 320, 220);
    assert_eq!((g.width, g.height), (320, 220));
    assert!(g.normalized);

    let w = WindowConfig { x: 0, y: 0, width: u32::MAX, height: 1, dpi: Some(0), locked: false };
    let g = initial_window(&w, 0, 0, -3);
    assert_eq!((g.width, g.height), (i32::MAX, 1));
    assert!(g.normalized);
}
