use vstd::prelude::*;

use crate::command::AppCommand;
use crate::event::AppEvent;
use crate::timer::{updated, TimerEngine, TimerMode, TimerStatus};

verus! {

/// The engine after `k` ticks.
pub open spec fn run_ticks(e: TimerEngine, k: nat) -> TimerEngine
    decreases k,
{
    if k == 0 {
        e
    } else {
        run_ticks(e.after_tick().0, (k - 1) as nat)
    }
}

/// Reset brings a well-formed engine back to the state of a new engine with
/// the same mode and countdown duration.
pub proof fn lemma_reset_restores_initial(e: TimerEngine)
    requires
        e.well_formed(),
    ensures
        e.after_reset().0 == TimerEngine::initial(e.mode, e.countdown_duration_secs),
{
}

/// A duration set on a countdown takes effect at the latest on the next
/// reset: afterwards the countdown is idle at exactly that duration.
pub proof fn lemma_set_countdown_then_reset(e: TimerEngine, secs: u64)
    requires
        e.mode == TimerMode::Countdown,
    ensures
        e.after_set_countdown(secs).0.after_reset().0.remaining_secs == secs,
        e.after_set_countdown(secs).0.after_reset().0.status == TimerStatus::Idle,
        e.after_set_countdown(secs).0.after_reset().0.shown_secs() == secs,
{
}

/// Pausing a running timer and resuming it gives back the same engine.
pub proof fn lemma_pause_then_resume(e: TimerEngine)
    requires
        e.status == TimerStatus::Running,
    ensures
        e.after_pause().0.after_resume().0 == e,
        e.after_pause().1 == updated(),
        e.after_pause().0.after_resume().1 == updated(),
{
}

/// A running countdown with `r > 0` seconds left counts down one second per
/// tick, and finishes at the `r`-th tick; that tick, and no earlier one,
/// reports `TimerFinished`.
pub proof fn lemma_countdown_runs_out(e: TimerEngine, k: nat)
    requires
        e.status == TimerStatus::Running,
        e.mode == TimerMode::Countdown,
        0 < e.remaining_secs,
        k <= e.remaining_secs,
    ensures
        run_ticks(e, k) == (if k == e.remaining_secs {
            TimerEngine { remaining_secs: 0, status: TimerStatus::Finished, ..e }
        } else {
            TimerEngine { remaining_secs: (e.remaining_secs - k) as u64, ..e }
        }),
        k < e.remaining_secs ==> run_ticks(e, k).after_tick().1 == (if k + 1
            == e.remaining_secs {
            seq![AppEvent::TimerFinished]
        } else {
            updated()
        }),
    decreases k,
{
    if k > 0 {
        let next = e.after_tick().0;
        if e.remaining_secs == 1 {
            assert(run_ticks(next, (k - 1) as nat) == next);
        } else {
            lemma_countdown_runs_out(next, (k - 1) as nat);
        }
    }
}

/// A finished countdown ignores ticks.
pub proof fn lemma_finished_stays(e: TimerEngine, k: nat)
    requires
        e.status == TimerStatus::Finished,
    ensures
        run_ticks(e, k) == e,
    decreases k,
{
    if k > 0 {
        lemma_finished_stays(e.after_tick().0, (k - 1) as nat);
    }
}

/// A running stopwatch counts one second per tick and never finishes.
pub proof fn lemma_stopwatch_counts_up(e: TimerEngine, k: nat)
    requires
        e.status == TimerStatus::Running,
        e.mode == TimerMode::Stopwatch,
        e.elapsed_secs + k <= u64::MAX,
    ensures
        run_ticks(e, k) == (TimerEngine { elapsed_secs: (e.elapsed_secs + k) as u64, ..e }),
    decreases k,
{
    if k > 0 {
        lemma_stopwatch_counts_up(e.after_tick().0, (k - 1) as nat);
    }
}

/// A command that reports no event leaves the engine as it was, and every
/// event that the engine reports is a timer event.
pub proof fn lemma_silent_command_changes_nothing(e: TimerEngine, cmd: AppCommand)
    ensures
        e.after(cmd).1.len() == 0 ==> e.after(cmd).0 == e,
        forall|i: int|
            0 <= i < e.after(cmd).1.len() ==> (#[trigger] e.after(cmd).1[i] == AppEvent::TimerUpdated
                || e.after(cmd).1[i] == AppEvent::TimerFinished),
{
}

/// Start on a paused timer continues it: only the status changes, to
/// Running, exactly as Resume does; the counters are kept.
pub proof fn lemma_start_on_paused_resumes(e: TimerEngine)
    requires
        e.status == TimerStatus::Paused,
    ensures
        e.after(AppCommand::Start).0 == (TimerEngine { status: TimerStatus::Running, ..e }),
        e.after(AppCommand::Start).0.elapsed_secs == e.elapsed_secs,
        e.after(AppCommand::Start).0.remaining_secs == e.remaining_secs,
        e.after(AppCommand::Start).1 == seq![AppEvent::TimerUpdated],
        e.after(AppCommand::Start) == e.after(AppCommand::Resume),
{
}

/// Start on an idle or finished timer runs it from the beginning of its
/// mode: a countdown from its full length, a stopwatch from zero.
pub proof fn lemma_start_runs_from_beginning(e: TimerEngine)
    requires
        e.status == TimerStatus::Idle || e.status == TimerStatus::Finished,
    ensures
        e.after(AppCommand::Start).0.status == TimerStatus::Running,
        e.after(AppCommand::Start).0.shown_secs() == (if e.mode == TimerMode::Countdown {
            e.countdown_duration_secs
        } else {
            0
        }),
        e.after(AppCommand::Start).0.mode == e.mode,
        e.after(AppCommand::Start).0.countdown_duration_secs == e.countdown_duration_secs,
{
}

/// Time moves only while the timer runs: a tick of an idle, paused or
/// finished engine changes nothing and reports nothing, however many come.
pub proof fn lemma_tick_only_while_running(e: TimerEngine, k: nat)
    requires
        e.status != TimerStatus::Running,
    ensures
        e.after(AppCommand::Tick).0 == e,
        e.after(AppCommand::Tick).1 == Seq::<AppEvent>::empty(),
        run_ticks(e, k) == e,
    decreases k,
{
    if k > 0 {
        lemma_tick_only_while_running(e, (k - 1) as nat);
    }
}

/// A tick of a running engine moves its counter by exactly one second: up
/// for a stopwatch, down for a countdown that has time left.
pub proof fn lemma_running_tick_moves_one_second(e: TimerEngine)
    requires
        e.status == TimerStatus::Running,
        e.can_handle(AppCommand::Tick),
        e.mode == TimerMode::Stopwatch || e.remaining_secs > 0,
    ensures
        e.mode == TimerMode::Stopwatch ==> e.after(AppCommand::Tick).0.elapsed_secs
            == e.elapsed_secs + 1,
        e.mode == TimerMode::Countdown ==> e.after(AppCommand::Tick).0.remaining_secs
            == e.remaining_secs - 1,
        e.after(AppCommand::Tick).0.mode == e.mode,
        e.after(AppCommand::Tick).0.countdown_duration_secs == e.countdown_duration_secs,
{
}

/// Pause acts only on a running timer and Resume only on a paused one;
/// Start does nothing to a running timer. Otherwise they change nothing and
/// report nothing.
pub proof fn lemma_control_noops(e: TimerEngine)
    ensures
        e.status != TimerStatus::Running ==> e.after(AppCommand::Pause) == (e, Seq::<
            AppEvent,
        >::empty()),
        e.status != TimerStatus::Paused ==> e.after(AppCommand::Resume) == (e, Seq::<
            AppEvent,
        >::empty()),
        e.status == TimerStatus::Running ==> e.after(AppCommand::Start) == (e, Seq::<
            AppEvent,
        >::empty()),
        e.status == TimerStatus::Running ==> e.after(AppCommand::Pause) == (
        TimerEngine { status: TimerStatus::Paused, ..e }, seq![AppEvent::TimerUpdated]),
{
}

/// Setting the countdown length always records it and reports one update;
/// the time left follows only on an idle countdown, and the status never
/// changes.
pub proof fn lemma_set_countdown_effect(e: TimerEngine, secs: u64)
    ensures
        e.after(AppCommand::SetCountdown(secs)).0.countdown_duration_secs == secs,
        e.after(AppCommand::SetCountdown(secs)).0.status == e.status,
        e.after(AppCommand::SetCountdown(secs)).0.mode == e.mode,
        e.after(AppCommand::SetCountdown(secs)).0.elapsed_secs == e.elapsed_secs,
        e.after(AppCommand::SetCountdown(secs)).0.remaining_secs == (if e.mode
            == TimerMode::Countdown && e.status == TimerStatus::Idle {
            secs
        } else {
            e.remaining_secs
        }),
        e.after(AppCommand::SetCountdown(secs)).1 == seq![AppEvent::TimerUpdated],
{
}

/// Switching the mode, from any state, leaves an idle timer in the new mode
/// at the start of that mode, with the countdown length kept.
pub proof fn lemma_switch_mode_effect(e: TimerEngine, mode: TimerMode)
    ensures
        e.after(AppCommand::SwitchMode(mode)).0.mode == mode,
        e.after(AppCommand::SwitchMode(mode)).0.status == TimerStatus::Idle,
        e.after(AppCommand::SwitchMode(mode)).0.elapsed_secs == 0,
        e.after(AppCommand::SwitchMode(mode)).0.remaining_secs == (if mode
            == TimerMode::Countdown {
            e.countdown_duration_secs
        } else {
            0
        }),
        e.after(AppCommand::SwitchMode(mode)).0.countdown_duration_secs
            == e.countdown_duration_secs,
        e.after(AppCommand::SwitchMode(mode)).1 == seq![AppEvent::TimerUpdated],
{
}

/// Reset, from any state, leaves an idle timer in the same mode, with the
/// countdown back at its full length and the stopwatch at zero.
pub proof fn lemma_reset_effect(e: TimerEngine)
    ensures
        e.after(AppCommand::Reset).0.status == TimerStatus::Idle,
        e.after(AppCommand::Reset).0.mode == e.mode,
        e.mode == TimerMode::Countdown ==> e.after(AppCommand::Reset).0.remaining_secs
            == e.countdown_duration_secs,
        e.mode == TimerMode::Stopwatch ==> e.after(AppCommand::Reset).0.elapsed_secs == 0,
        e.after(AppCommand::Reset).0.countdown_duration_secs == e.countdown_duration_secs,
        e.after(AppCommand::Reset).1 == seq![AppEvent::TimerUpdated],
{
}

} // verus!
