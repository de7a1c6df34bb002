use vstd::prelude::*;

use crate::command::AppCommand;
use crate::timer::TimerMode;

verus! {

/// Tray menu item: start.
pub const MENU_START: usize = 1001;
/// Tray menu item: pause.
pub const MENU_PAUSE: usize = 1002;
/// Tray menu item: reset.
pub const MENU_RESET: usize = 1003;
/// Tray menu item: switch to the stopwatch.
pub const MENU_STOPWATCH: usize = 1004;
/// Tray menu item: switch to the countdown.
pub const MENU_COUNTDOWN: usize = 1005;
/// Tray menu item: show or hide the window.
pub const MENU_TOGGLE: usize = 1006;
/// Tray menu item: quit.
pub const MENU_QUIT: usize = 1007;
/// Tray menu item: open the countdown dialog (handled by the front end).
pub const MENU_SET_COUNTDOWN: usize = 1008;

/// The command of a tray menu item; `None` for an item that the front end
/// handles itself (the countdown dialog) and for an unknown id.
pub open spec fn menu_command(menu_id: usize) -> Option<AppCommand> {
    if menu_id == MENU_START {
        Some(AppCommand::Start)
    } else if menu_id == MENU_PAUSE {
        Some(AppCommand::Pause)
    } else if menu_id == MENU_RESET {
        Some(AppCommand::Reset)
    } else if menu_id == MENU_STOPWATCH {
        Some(AppCommand::SwitchMode(TimerMode::Stopwatch))
    } else if menu_id == MENU_COUNTDOWN {
        Some(AppCommand::SwitchMode(TimerMode::Countdown))
    } else if menu_id == MENU_TOGGLE {
        Some(AppCommand::ToggleWindow)
    } else if menu_id == MENU_QUIT {
        Some(AppCommand::Quit)
    } else {
        None
    }
}

/// Maps a tray menu item id to its command.
pub fn menu_id_to_command(menu_id: usize) -> (r: Option<AppCommand>)
    ensures
        r == menu_command(menu_id),
{
    match menu_id {
        MENU_START => Some(AppCommand::Start),
        MENU_PAUSE => Some(AppCommand::Pause),
        MENU_RESET => Some(AppCommand::Reset),
        MENU_STOPWATCH => Some(AppCommand::SwitchMode(TimerMode::Stopwatch)),
        MENU_COUNTDOWN => Some(AppCommand::SwitchMode(TimerMode::Countdown)),
        MENU_TOGGLE => Some(AppCommand::ToggleWindow),
        MENU_QUIT => Some(AppCommand::Quit),
        _ => None,
    }
}

} // verus!
