use vstd::prelude::*;

use crate::duration_text::clock_text;
use crate::timer::{TimerEngine, TimerMode, TimerStatus};

verus! {

/// Read-only snapshot for the user interface: front ends read the formatted
/// data from here, never the engine's internals.
#[derive(Debug, Clone)]
pub struct ViewState {
    /// Formatted time (`MM:SS` / `HH:MM:SS`).
    pub display_time: String,
    pub mode: TimerMode,
    pub status: TimerStatus,
    pub countdown_duration_secs: u64,
    pub window_visible: bool,
}

impl ViewState {
    /// The snapshot shows exactly what the engine holds.
    pub open spec fn mirrors(&self, e: TimerEngine) -> bool {
        &&& self.display_time@ == clock_text(e.shown_secs() as nat)
        &&& self.mode == e.mode
        &&& self.status == e.status
        &&& self.countdown_duration_secs == e.countdown_duration_secs
    }
}

} // verus!
