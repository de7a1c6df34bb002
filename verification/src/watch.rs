use vstd::prelude::*;

verus! {

/// The debounce window of the configuration watcher, in milliseconds.
pub const DEBOUNCE_MS: u64 = 300;

/// The poll interval of the configuration watcher, in milliseconds: after
/// this long without a file event the watcher looks at its clock.
pub const POLL_MS: u64 = 100;

/// The kind of a file-system event, as the watcher sees it.
#[derive(Debug, Clone, Copy, PartialEq, Eq, Structural)]
pub enum ChangeKind {
    Any,
    Access,
    Create,
    Modify,
    Remove,
    Other,
}

/// An event kind that can change the file's content: a modification or a
/// creation (editors often save by writing a new file).
pub open spec fn relevant_kind(kind: ChangeKind) -> bool {
    kind == ChangeKind::Modify || kind == ChangeKind::Create
}

/// Whether an event of this kind may have changed the configuration file.
pub fn is_relevant_kind(kind: ChangeKind) -> (r: bool)
    ensures
        r == relevant_kind(kind),
{
    match kind {
        ChangeKind::Modify | ChangeKind::Create => true,
        _ => false,
    }
}

/// What the watcher learns in one round of its loop.
#[derive(Debug, Clone, Copy, PartialEq, Eq, Structural)]
pub enum WatchInput {
    /// A relevant change of the configuration file, seen at `now_ms`.
    RelevantChange { now_ms: u64 },
    /// Some other file event, or an event error.
    OtherEvent,
    /// No event for a poll interval; the clock reads `now_ms`.
    Timeout { now_ms: u64 },
    /// The event source is gone.
    Disconnected,
}

/// What the watcher does next.
#[derive(Debug, Clone, Copy, PartialEq, Eq, Structural)]
pub enum WatchAction {
    /// Keep waiting for events.
    Wait,
    /// Ask the application to reload its configuration.
    SendReload,
    /// End the watcher.
    Stop,
}

/// One step of the debounce: `pending_since_ms` is the time of the latest
/// relevant change not yet answered by a reload. A relevant change (re)starts
/// the window; a timeout at least `DEBOUNCE_MS` after the pending change sends
/// one reload and clears it; other events change nothing; a closed source
/// stops the watcher.
pub open spec fn watch_step_spec(pending_since_ms: Option<u64>, input: WatchInput) -> (
    Option<u64>,
    WatchAction,
) {
    match input {
        WatchInput::RelevantChange { now_ms } => (Some(now_ms), WatchAction::Wait),
        WatchInput::OtherEvent => (pending_since_ms, WatchAction::Wait),
        WatchInput::Timeout { now_ms } => match pending_since_ms {
            Some(t) => if now_ms >= t + DEBOUNCE_MS {
                (None, WatchAction::SendReload)
            } else {
                (pending_since_ms, WatchAction::Wait)
            },
            None => (None, WatchAction::Wait),
        },
        WatchInput::Disconnected => (pending_since_ms, WatchAction::Stop),
    }
}

/// Computes one step of the debounce (see `watch_step_spec`).
pub fn watch_step(pending_since_ms: Option<u64>, input: WatchInput) -> (r: (
    Option<u64>,
    WatchAction,
))
    ensures
        r == watch_step_spec(pending_since_ms, input),
{
    match input {
        WatchInput::RelevantChange { now_ms } => (Some(now_ms), WatchAction::Wait),
        WatchInput::OtherEvent => (pending_since_ms, WatchAction::Wait),
        WatchInput::Timeout { now_ms } => match pending_since_ms {
            Some(t) => {
                if now_ms >= t && now_ms - t >= DEBOUNCE_MS {
                    (None, WatchAction::SendReload)
                } else {
                    (pending_since_ms, WatchAction::Wait)
                }
            },
            None => (None, WatchAction::Wait),
        },
        WatchInput::Disconnected => (pending_since_ms, WatchAction::Stop),
    }
}

/// The pending change and the number of reloads sent after a run of inputs.
pub open spec fn watch_run(pending_since_ms: Option<u64>, inputs: Seq<WatchInput>) -> (
    Option<u64>,
    nat,
)
    decreases inputs.len(),
{
    if inputs.len() == 0 {
        (pending_since_ms, 0)
    } else {
        let s = watch_step_spec(pending_since_ms, inputs[0]);
        let rest = watch_run(s.0, inputs.drop_first());
        (rest.0, rest.1 + if s.1 == WatchAction::SendReload { 1nat } else { 0nat })
    }
}

/// A reload is sent only on a timeout at least `DEBOUNCE_MS` after the latest
/// relevant change, and it clears that change.
pub proof fn lemma_reload_only_after_quiet_window(pending_since_ms: Option<u64>, input: WatchInput)
    ensures
        watch_step_spec(pending_since_ms, input).1 == WatchAction::SendReload ==> (
        pending_since_ms is Some && input is Timeout && input->Timeout_now_ms >= pending_since_ms->0
            + DEBOUNCE_MS && watch_step_spec(pending_since_ms, input).0 is None),
{
}

/// At most one reload per burst of changes: while no new relevant change
/// arrives, a pending change is answered by at most one reload, and with no
/// pending change none is sent.
pub proof fn lemma_at_most_one_reload_per_burst(
    pending_since_ms: Option<u64>,
    inputs: Seq<WatchInput>,
)
    requires
        forall|i: int| 0 <= i < inputs.len() ==> !(#[trigger] inputs[i] is RelevantChange),
    ensures
        watch_run(pending_since_ms, inputs).1 <= (if pending_since_ms is Some { 1nat } else {
            0nat
        }),
    decreases inputs.len(),
{
    if inputs.len() > 0 {
        let s = watch_step_spec(pending_since_ms, inputs[0]);
        let rest = inputs.drop_first();
        assert forall|i: int| 0 <= i < rest.len() implies !(#[trigger] rest[i] is RelevantChange) by {
            assert(rest[i] == inputs[i + 1]);
        }
        assert(!(inputs[0] is RelevantChange));
        lemma_at_most_one_reload_per_burst(s.0, rest);
    }
}

} // verus!
