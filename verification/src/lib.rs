//! Desktop countdown / stopwatch timer: the timing state machine, the
//! controller that routes commands to it, the configuration model, and the
//! text formats for durations.

pub mod buttons;
pub mod command;
pub mod config;
pub mod controller;
pub mod controller_laws;
pub mod event;
pub mod duration_laws;
pub mod duration_parse;
pub mod duration_text;
pub mod repository;
pub mod timer;
pub mod timer_laws;
pub mod tray_menu;
pub mod ui_command;
pub mod view_state;
pub mod watch;
pub mod window_geometry;

pub use command::AppCommand;
pub use event::AppEvent;
pub use timer::{TimerEngine, TimerMode, TimerStatus};
pub use view_state::ViewState;
pub use config::{AppConfig, FontConfig, TimerModeConfig, TrayConfig, TrayLeftClickAction, WindowConfig};
pub use controller::AppController;
pub use repository::TomlConfigRepository;
pub use buttons::ButtonHit;
pub use ui_command::UiCommand;
