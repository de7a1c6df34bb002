use vstd::prelude::*;

use crate::timer::TimerMode;

verus! {

/// Input to the application: a user, tray or system action.
///
/// Commands are issued by a front end and routed by the controller to the
/// timer engine.
#[derive(Debug, Clone, Copy, PartialEq, Eq, Structural)]
pub enum AppCommand {
    /// Start timing (Idle/Finished -> Running; Paused -> resume).
    Start,
    /// Pause (Running -> Paused).
    Pause,
    /// Resume (Paused -> Running).
    Resume,
    /// Back to the initial state (-> Idle).
    Reset,
    /// One second passes; sent by an outside ticker.
    Tick,
    /// Set the countdown duration in seconds.
    SetCountdown(u64),
    /// Switch between stopwatch and countdown; the timer goes back to Idle.
    SwitchMode(TimerMode),
    /// Flip the main window's visibility.
    ToggleWindow,
    /// Show the main window.
    ShowWindow,
    /// Hide the main window.
    HideWindow,
    /// Left click on the tray icon; the configuration decides what it does.
    TrayLeftClick,
    /// Reload the configuration file.
    ReloadConfig,
    /// Quit the application.
    Quit,
}

} // verus!
