use vstd::prelude::*;

use crate::command::AppCommand;
use crate::timer::{TimerEngine, TimerMode, TimerStatus};

verus! {

/// Which button of the main window a click hit.
#[derive(Debug, Clone, Copy, PartialEq, Eq, Structural)]
pub enum ButtonHit {
    /// Start / pause / resume.
    StartPause,
    /// Reset.
    Reset,
    /// Switch between stopwatch and countdown.
    SwitchMode,
    /// No button: the click drags the window.
    NoButton,
}

/// The other mode.
pub open spec fn other_mode(mode: TimerMode) -> TimerMode {
    match mode {
        TimerMode::Stopwatch => TimerMode::Countdown,
        TimerMode::Countdown => TimerMode::Stopwatch,
    }
}

/// What the main button does in a status: pause a running timer, resume a
/// paused one, start otherwise.
pub open spec fn primary_command(status: TimerStatus) -> AppCommand {
    match status {
        TimerStatus::Running => AppCommand::Pause,
        TimerStatus::Paused => AppCommand::Resume,
        _ => AppCommand::Start,
    }
}

/// The command of a click on a main-window button, given the timer's status
/// and mode; `None` where no button was hit.
pub fn command_for_button(hit: ButtonHit, status: TimerStatus, mode: TimerMode) -> (r: Option<
    AppCommand,
>)
    ensures
        r == (match hit {
            ButtonHit::StartPause => Some(primary_command(status)),
            ButtonHit::Reset => Some(AppCommand::Reset),
            ButtonHit::SwitchMode => Some(AppCommand::SwitchMode(other_mode(mode))),
            ButtonHit::NoButton => None,
        }),
{
    match hit {
        ButtonHit::StartPause => {
            let cmd = match status {
                TimerStatus::Running => AppCommand::Pause,
                TimerStatus::Paused => AppCommand::Resume,
                _ => AppCommand::Start,
            };
            Some(cmd)
        },
        ButtonHit::Reset => Some(AppCommand::Reset),
        ButtonHit::SwitchMode => {
            let new_mode = match mode {
                TimerMode::Stopwatch => TimerMode::Countdown,
                TimerMode::Countdown => TimerMode::Stopwatch,
            };
            Some(AppCommand::SwitchMode(new_mode))
        },
        ButtonHit::NoButton => None,
    }
}

/// The main button toggles between running and not running: it pauses a
/// running timer, and starts or continues any other one; a paused timer
/// keeps its counters.
pub proof fn lemma_main_button_toggles_running(e: TimerEngine)
    ensures
        e.after(primary_command(e.status)).0.status == (if e.status == TimerStatus::Running {
            TimerStatus::Paused
        } else {
            TimerStatus::Running
        }),
        e.status == TimerStatus::Paused ==> e.after(primary_command(e.status)).0 == (
        TimerEngine { status: TimerStatus::Running, ..e }),
        e.after(primary_command(e.status)).1.len() == 1,
{
}

/// The switch button always lands in the other mode, idle.
pub proof fn lemma_switch_button_changes_mode(e: TimerEngine)
    ensures
        other_mode(e.mode) != e.mode,
        e.after(AppCommand::SwitchMode(other_mode(e.mode))).0.mode != e.mode,
        e.after(AppCommand::SwitchMode(other_mode(e.mode))).0.status == TimerStatus::Idle,
{
}

} // verus!
