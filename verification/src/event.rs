use vstd::prelude::*;

verus! {

/// Output of the application: what the front ends must react to.
#[derive(Debug, Clone, Copy, PartialEq, Eq, Structural)]
pub enum AppEvent {
    /// Timer data changed (time, mode, ...); the display must be redrawn.
    TimerUpdated,
    /// The countdown reached zero.
    TimerFinished,
    /// The main window should be shown.
    WindowShouldShow,
    /// The main window should be hidden.
    WindowShouldHide,
    /// The application should exit.
    AppShouldQuit,
}

} // verus!
