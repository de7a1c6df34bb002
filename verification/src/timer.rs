use vstd::prelude::*;

use crate::command::AppCommand;
use crate::event::AppEvent;

verus! {

/// Timing mode: counting up or counting down.
#[derive(Debug, Clone, Copy, PartialEq, Eq, Structural)]
pub enum TimerMode {
    Stopwatch,
    Countdown,
}

/// Timer status: Idle -> Running <-> Paused -> Finished.
#[derive(Debug, Clone, Copy, PartialEq, Eq, Structural)]
pub enum TimerStatus {
    /// Ready (after a reset).
    Idle,
    /// Counting.
    Running,
    /// Paused.
    Paused,
    /// The countdown reached zero.
    Finished,
}

/// The timing engine: a pure state machine. Time is driven from outside by
/// `Tick` commands.
pub struct TimerEngine {
    pub mode: TimerMode,
    pub status: TimerStatus,
    /// Seconds counted up in stopwatch mode.
    pub elapsed_secs: u64,
    /// Seconds left in countdown mode.
    pub remaining_secs: u64,
    /// Countdown length, restored on reset and on a switch to countdown.
    pub countdown_duration_secs: u64,
}

/// The single event that a state-changing timer command reports.
pub open spec fn updated() -> Seq<AppEvent> {
    seq![AppEvent::TimerUpdated]
}

impl TimerEngine {
    /// The state that every operation keeps.
    pub open spec fn well_formed(&self) -> bool {
        &&& self.mode == TimerMode::Stopwatch ==> self.remaining_secs == 0
        &&& self.mode == TimerMode::Countdown ==> self.elapsed_secs == 0
        &&& self.status == TimerStatus::Idle ==> self.elapsed_secs == 0
        &&& (self.status == TimerStatus::Idle && self.mode == TimerMode::Countdown)
            ==> self.remaining_secs == self.countdown_duration_secs
        &&& self.status == TimerStatus::Finished ==> (self.mode == TimerMode::Countdown
            && self.remaining_secs == 0)
    }

    /// The seconds that the display shows in the current mode.
    pub open spec fn shown_secs(&self) -> u64 {
        match self.mode {
            TimerMode::Stopwatch => self.elapsed_secs,
            TimerMode::Countdown => self.remaining_secs,
        }
    }

    /// A fresh engine: idle in `mode`, a countdown at its full duration.
    pub open spec fn initial(mode: TimerMode, duration_secs: u64) -> TimerEngine {
        TimerEngine {
            mode,
            status: TimerStatus::Idle,
            elapsed_secs: 0,
            remaining_secs: if mode == TimerMode::Countdown { duration_secs } else { 0 },
            countdown_duration_secs: duration_secs,
        }
    }

    /// The engine with its counter back at the start of the current mode.
    pub open spec fn rewound(self) -> TimerEngine {
        if self.mode == TimerMode::Countdown {
            TimerEngine { remaining_secs: self.countdown_duration_secs, ..self }
        } else {
            TimerEngine { elapsed_secs: 0, ..self }
        }
    }

    /// Every command is handled, but for one input on which the counter would
    /// pass `u64::MAX`: a tick of a running stopwatch at the largest count.
    pub open spec fn can_handle(&self, cmd: AppCommand) -> bool {
        !(cmd == AppCommand::Tick && self.status == TimerStatus::Running && self.mode
            == TimerMode::Stopwatch && self.elapsed_secs == u64::MAX)
    }

    /// What `Start` does: Idle/Finished begin anew, Paused resumes, Running
    /// stays as it is.
    pub open spec fn after_start(self) -> (TimerEngine, Seq<AppEvent>) {
        match self.status {
            TimerStatus::Idle | TimerStatus::Finished => (
                TimerEngine { status: TimerStatus::Running, ..self.rewound() },
                updated(),
            ),
            TimerStatus::Paused => self.after_resume(),
            TimerStatus::Running => (self, Seq::empty()),
        }
    }

    /// What `Pause` does: only a running timer pauses.
    pub open spec fn after_pause(self) -> (TimerEngine, Seq<AppEvent>) {
        if self.status == TimerStatus::Running {
            (TimerEngine { status: TimerStatus::Paused, ..self }, updated())
        } else {
            (self, Seq::empty())
        }
    }

    /// What `Resume` does: only a paused timer resumes.
    pub open spec fn after_resume(self) -> (TimerEngine, Seq<AppEvent>) {
        if self.status == TimerStatus::Paused {
            (TimerEngine { status: TimerStatus::Running, ..self }, updated())
        } else {
            (self, Seq::empty())
        }
    }

    /// What `Reset` does: the counter goes back to its start, the status to Idle.
    pub open spec fn after_reset(self) -> (TimerEngine, Seq<AppEvent>) {
        (TimerEngine { status: TimerStatus::Idle, ..self.rewound() }, updated())
    }

    /// What `Tick` does: only a running timer moves; a countdown that reaches
    /// zero finishes; a countdown already at zero stays.
    pub open spec fn after_tick(self) -> (TimerEngine, Seq<AppEvent>) {
        if self.status != TimerStatus::Running {
            (self, Seq::empty())
        } else if self.mode == TimerMode::Stopwatch {
            (TimerEngine { elapsed_secs: (self.elapsed_secs + 1) as u64, ..self }, updated())
        } else if self.remaining_secs == 0 {
            (self, Seq::empty())
        } else if self.remaining_secs == 1 {
            (
                TimerEngine { remaining_secs: 0, status: TimerStatus::Finished, ..self },
                seq![AppEvent::TimerFinished],
            )
        } else {
            (TimerEngine { remaining_secs: (self.remaining_secs - 1) as u64, ..self }, updated())
        }
    }

    /// What `SetCountdown(secs)` does: the duration always changes; the
    /// remaining time follows only on an idle countdown.
    pub open spec fn after_set_countdown(self, secs: u64) -> (TimerEngine, Seq<AppEvent>) {
        if self.mode == TimerMode::Countdown && self.status == TimerStatus::Idle {
            (
                TimerEngine { countdown_duration_secs: secs, remaining_secs: secs, ..self },
                updated(),
            )
        } else {
            (TimerEngine { countdown_duration_secs: secs, ..self }, updated())
        }
    }

    /// What `SwitchMode(mode)` does: the new mode, Idle, and both counters at
    /// the start of that mode.
    pub open spec fn after_switch_mode(self, mode: TimerMode) -> (TimerEngine, Seq<AppEvent>) {
        (TimerEngine::initial(mode, self.countdown_duration_secs), updated())
    }

    /// The engine and the events after one command. Commands that are not
    /// about timing leave the engine as it is and report nothing.
    pub open spec fn after(self, cmd: AppCommand) -> (TimerEngine, Seq<AppEvent>) {
        match cmd {
            AppCommand::Start => self.after_start(),
            AppCommand::Pause => self.after_pause(),
            AppCommand::Resume => self.after_resume(),
            AppCommand::Reset => self.after_reset(),
            AppCommand::Tick => self.after_tick(),
            AppCommand::SetCountdown(n) => self.after_set_countdown(n),
            AppCommand::SwitchMode(m) => self.after_switch_mode(m),
            _ => (self, Seq::empty()),
        }
    }

    /// A new engine in `mode`, idle; a countdown starts at `duration_secs`.
    pub fn new(mode: TimerMode, duration_secs: u64) -> (e: Self)
        ensures
            e == TimerEngine::initial(mode, duration_secs),
            e.well_formed(),
    {
        let remaining = if mode == TimerMode::Countdown {
            duration_secs
        } else {
            0
        };
        TimerEngine {
            mode,
            status: TimerStatus::Idle,
            elapsed_secs: 0,
            remaining_secs: remaining,
            countdown_duration_secs: duration_secs,
        }
    }

    /// Handles one command and returns the events it causes.
    pub fn handle(&mut self, cmd: AppCommand) -> (events: Vec<AppEvent>)
        requires
            old(self).can_handle(cmd),
        ensures
            *final(self) == old(self).after(cmd).0,
            events@ == old(self).after(cmd).1,
            old(self).well_formed() ==> final(self).well_formed(),
    {
        match cmd {
            AppCommand::Start => self.handle_start(),
            AppCommand::Pause => self.handle_pause(),
            AppCommand::Resume => self.handle_resume(),
            AppCommand::Reset => self.handle_reset(),
            AppCommand::Tick => self.handle_tick(),
            AppCommand::SetCountdown(n) => self.handle_set_countdown(n),
            AppCommand::SwitchMode(mode) => self.handle_switch_mode(mode),
            _ => Vec::new(),
        }
    }

    fn handle_start(&mut self) -> (events: Vec<AppEvent>)
        ensures
            *final(self) == old(self).after_start().0,
            events@ == old(self).after_start().1,
    {
        match self.status {
            TimerStatus::Idle | TimerStatus::Finished => {
                if self.mode == TimerMode::Countdown {
                    self.remaining_secs = self.countdown_duration_secs;
                } else {
                    self.elapsed_secs = 0;
                }
                self.status = TimerStatus::Running;
                vec![AppEvent::TimerUpdated]
            },
            TimerStatus::Paused => self.handle_resume(),
            TimerStatus::Running => Vec::new(),
        }
    }

    fn handle_pause(&mut self) -> (events: Vec<AppEvent>)
        ensures
            *final(self) == old(self).after_pause().0,
            events@ == old(self).after_pause().1,
    {
        match self.status {
            TimerStatus::Running => {
                self.status = TimerStatus::Paused;
                vec![AppEvent::TimerUpdated]
            },
            _ => Vec::new(),
        }
    }

    fn handle_resume(&mut self) -> (events: Vec<AppEvent>)
        ensures
            *final(self) == old(self).after_resume().0,
            events@ == old(self).after_resume().1,
    {
        match self.status {
            TimerStatus::Paused => {
                self.status = TimerStatus::Running;
                vec![AppEvent::TimerUpdated]
            },
            _ => Vec::new(),
        }
    }

    fn handle_reset(&mut self) -> (events: Vec<AppEvent>)
        ensures
            *final(self) == old(self).after_reset().0,
            events@ == old(self).after_reset().1,
    {
        if self.mode == TimerMode::Countdown {
            self.remaining_secs = self.countdown_duration_secs;
        } else {
            self.elapsed_secs = 0;
        }
        self.status = TimerStatus::Idle;
        vec![AppEvent::TimerUpdated]
    }

    fn handle_tick(&mut self) -> (events: Vec<AppEvent>)
        requires
            old(self).can_handle(AppCommand::Tick),
        ensures
            *final(self) == old(self).after_tick().0,
            events@ == old(self).after_tick().1,
    {
        match self.status {
            TimerStatus::Running => match self.mode {
                TimerMode::Stopwatch => {
                    self.elapsed_secs = self.elapsed_secs + 1;
                    vec![AppEvent::TimerUpdated]
                },
                TimerMode::Countdown => {
                    if self.remaining_secs > 0 {
                        self.remaining_secs = self.remaining_secs - 1;
                        if self.remaining_secs == 0 {
                            self.status = TimerStatus::Finished;
                            vec![AppEvent::TimerFinished]
                        } else {
                            vec![AppEvent::TimerUpdated]
                        }
                    } else {
                        Vec::new()
                    }
                },
            },
            _ => Vec::new(),
        }
    }

    fn handle_set_countdown(&mut self, secs: u64) -> (events: Vec<AppEvent>)
        ensures
            *final(self) == old(self).after_set_countdown(secs).0,
            events@ == old(self).after_set_countdown(secs).1,
    {
        self.countdown_duration_secs = secs;
        if self.mode == TimerMode::Countdown && self.status == TimerStatus::Idle {
            self.remaining_secs = secs;
        }
        vec![AppEvent::TimerUpdated]
    }

    fn handle_switch_mode(&mut self, mode: TimerMode) -> (events: Vec<AppEvent>)
        ensures
            *final(self) == old(self).after_switch_mode(mode).0,
            events@ == old(self).after_switch_mode(mode).1,
    {
        self.mode = mode;
        self.status = TimerStatus::Idle;
        if mode == TimerMode::Countdown {
            self.remaining_secs = self.countdown_duration_secs;
            self.elapsed_secs = 0;
        } else {
            self.elapsed_secs = 0;
            self.remaining_secs = 0;
        }
        vec![AppEvent::TimerUpdated]
    }
}

} // verus!
