//! The per-session state machine: discovery, bounded-retry connection,
//! streaming, termination.
//!
//! The surrounding process performs the radio work and feeds the outcome of
//! each step back as an event; this module decides every transition. Only
//! the streaming state produces distribution events, and exhausting the
//! retry budget parks the session in the terminal state without ending the
//! process.

use vstd::prelude::*;

verus! {

/// Number of connection attempts before the session gives up.
pub const CONNECT_RETRY_BUDGET: u32 = 4;

/// Where a session stands.
#[derive(Clone, Copy, Debug, PartialEq, Eq, Structural)]
pub enum SessionState {
    /// Nothing started yet.
    Idle,
    /// A scan is running during its fixed observation window.
    Scanning,
    /// Connection attempt `attempt` (1-based) is in flight.
    Connecting { attempt: u32 },
    /// Subscribed and consuming notifications: the only state that
    /// distributes snapshots.
    Streaming,
    /// The session ended: nothing found, retries exhausted, or the stream
    /// closed. Only a new session can reconnect.
    Terminated,
}

/// What the outside work reported back.
#[derive(Clone, Copy, Debug, PartialEq, Eq, Structural)]
pub enum SessionEvent {
    /// The scan was started.
    ScanStarted,
    /// The scan window closed with at least one performance monitor found.
    MonitorFound,
    /// The scan window closed with none found.
    NoMonitorFound,
    /// The pending connection attempt succeeded and the subscriptions stand.
    ConnectSucceeded,
    /// The pending connection attempt failed.
    ConnectFailed,
    /// The notification stream ended or the transport failed fatally.
    StreamClosed,
}

/// States the machine itself can reach: an attempt counter stays within the
/// retry budget.
pub open spec fn state_wf(s: SessionState) -> bool {
    match s {
        SessionState::Connecting { attempt } => 1 <= attempt <= CONNECT_RETRY_BUDGET,
        _ => true,
    }
}

/// The transition relation, as a total function: an event that does not
/// concern the current state changes nothing.
pub open spec fn next_state(s: SessionState, e: SessionEvent) -> SessionState {
    match (s, e) {
        (SessionState::Idle, SessionEvent::ScanStarted) => SessionState::Scanning,
        (SessionState::Scanning, SessionEvent::MonitorFound) => SessionState::Connecting {
            attempt: 1,
        },
        (SessionState::Scanning, SessionEvent::NoMonitorFound) => SessionState::Terminated,
        (SessionState::Connecting { attempt: _ }, SessionEvent::ConnectSucceeded) => (
        SessionState::Streaming),
        (SessionState::Connecting { attempt }, SessionEvent::ConnectFailed) => {
            if attempt < CONNECT_RETRY_BUDGET {
                SessionState::Connecting { attempt: (attempt + 1) as u32 }
            } else {
                SessionState::Terminated
            }
        },
        (SessionState::Streaming, SessionEvent::StreamClosed) => SessionState::Terminated,
        _ => s,
    }
}

/// Whether a state hands snapshots to the distribution step.
pub open spec fn produces_distribution(s: SessionState) -> bool {
    s is Streaming
}

/// The state after a whole sequence of events.
pub open spec fn run(s: SessionState, events: Seq<SessionEvent>) -> SessionState
    decreases events.len(),
{
    if events.len() == 0 {
        s
    } else {
        next_state(run(s, events.drop_last()), events.last())
    }
}

/// Performs one transition.
pub fn step(s: &SessionState, e: &SessionEvent) -> (r: SessionState)
    ensures
        r == next_state(*s, *e),
        state_wf(*s) ==> state_wf(r),
{
    match (s, e) {
        (SessionState::Idle, SessionEvent::ScanStarted) => SessionState::Scanning,
        (SessionState::Scanning, SessionEvent::MonitorFound) => SessionState::Connecting {
            attempt: 1,
        },
        (SessionState::Scanning, SessionEvent::NoMonitorFound) => SessionState::Terminated,
        (SessionState::Connecting { attempt: _ }, SessionEvent::ConnectSucceeded) => (
        SessionState::Streaming),
        (SessionState::Connecting { attempt }, SessionEvent::ConnectFailed) => {
            if *attempt < CONNECT_RETRY_BUDGET {
                SessionState::Connecting { attempt: *attempt + 1 }
            } else {
                SessionState::Terminated
            }
        },
        (SessionState::Streaming, SessionEvent::StreamClosed) => SessionState::Terminated,
        _ => *s,
    }
}

/// Performs a whole sequence of transitions, in order.
pub fn run_events(start: &SessionState, events: &Vec<SessionEvent>) -> (r: SessionState)
    ensures
        r == run(*start, events@),
{
    let mut state: SessionState = *start;
    let mut i: usize = 0;
    while i < events.len()
        invariant
            i <= events@.len(),
            state == run(*start, events@.take(i as int)),
        decreases events@.len() - i,
    {
        state = step(&state, &events[i]);
        proof {
            assert(events@.take(i + 1).drop_last() =~= events@.take(i as int));
            assert(events@.take(i + 1).last() == events@[i as int]);
        }
        i = i + 1;
    }
    proof {
        assert(events@.take(events@.len() as int) =~= events@);
    }
    state
}

/// Law: without a successful connection event the session never streams, so
/// a connector that fails every attempt yields a run that distributes no
/// snapshot at any point.
pub proof fn lemma_no_success_no_streaming(start: SessionState, events: Seq<SessionEvent>)
    requires
        !(start is Streaming),
        forall|i: int| 0 <= i < events.len() ==> events[i] != SessionEvent::ConnectSucceeded,
    ensures
        forall|k: int|
            0 <= k <= events.len() ==> !produces_distribution(run(start, events.take(k))),
    decreases events.len(),
{
    assert forall|k: int|
        0 <= k <= events.len() implies !produces_distribution(run(start, events.take(k))) by {
        lemma_no_success_not_streaming(start, events.take(k));
    }
}

/// Helper for [`lemma_no_success_no_streaming`]: one run without a success
/// event ends anywhere but the streaming state.
proof fn lemma_no_success_not_streaming(start: SessionState, events: Seq<SessionEvent>)
    requires
        !(start is Streaming),
        forall|i: int| 0 <= i < events.len() ==> events[i] != SessionEvent::ConnectSucceeded,
    ensures
        !(run(start, events) is Streaming),
    decreases events.len(),
{
    if events.len() > 0 {
        lemma_no_success_not_streaming(start, events.drop_last());
    }
}

} // verus!
