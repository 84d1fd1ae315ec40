//! The accept loop's decisions.
//!
//! The server polls a non-blocking listening socket in a tight cycle. On
//! each cycle it attempts an accept, acts on the outcome, and then reads
//! the shutdown flag; the flag is set once by the signal handler and only
//! read here. The surrounding program owns the socket, the timer and the
//! flag; it reports each accept outcome as an [`AcceptEvent`], performs
//! the [`Action`] this module decides, and leaves the loop when
//! [`next_flow`] says the run is over.
//!
//! [`lemma_would_block_is_benign`] states that a would-block accept is
//! no error and ends nothing; [`lemma_at_most_one_cycle_after_shutdown`]
//! that once the flag is observed set, no further cycle begins.

use vstd::prelude::*;

verus! {

/// The TCP port the server listens on.
pub const SERVER_PORT: u16 = 8080;

/// How long the server holds an served connection open, in milliseconds,
/// before forcing it closed: the peer's window to finish reading.
pub const CLOSE_DELAY_MS: u64 = 1000;

/// The outcome of one non-blocking accept attempt.
#[derive(Clone, Copy, Debug, PartialEq, Eq, Structural)]
pub enum AcceptEvent {
    /// A client connection is ready.
    Connected,
    /// No client is pending: the accept would block.
    WouldBlock,
    /// The accept failed with a real error.
    Failed,
}

/// What the loop does with an accept outcome within the current cycle.
#[derive(Clone, Copy, Debug, PartialEq, Eq, Structural)]
pub enum Action {
    /// Serve the cached response to the accepted client, wait the fixed
    /// delay, then force the connection closed in both directions.
    Serve,
    /// Nothing to do in this cycle.
    Idle,
    /// Abort the process: any accept error besides would-block is fatal.
    Abort,
}

/// Whether the loop runs another cycle after the current one.
#[derive(Clone, Copy, Debug, PartialEq, Eq, Structural)]
pub enum Flow {
    /// Poll again.
    Polling,
    /// Leave the loop: the run is over.
    Stopped,
}

/// The action an accept outcome calls for.
pub open spec fn spec_action(event: AcceptEvent) -> Action {
    match event {
        AcceptEvent::Connected => Action::Serve,
        AcceptEvent::WouldBlock => Action::Idle,
        AcceptEvent::Failed => Action::Abort,
    }
}

/// Whether the loop goes on, given the shutdown flag as read at the end
/// of a cycle.
pub open spec fn spec_flow(shutdown: bool) -> Flow {
    if shutdown {
        Flow::Stopped
    } else {
        Flow::Polling
    }
}

/// One full cycle of the loop: the accept outcome decides the action,
/// and afterwards the shutdown flag decides whether another cycle runs.
/// A fatal accept error ends the run by itself: the process aborts.
pub open spec fn spec_cycle(event: AcceptEvent, shutdown: bool) -> (Action, Flow) {
    (
        spec_action(event),
        if event == AcceptEvent::Failed {
            Flow::Stopped
        } else {
            spec_flow(shutdown)
        },
    )
}

/// Decide what to do with the outcome of one accept attempt. A ready
/// connection is served; a would-block outcome is not an error and calls
/// for nothing; any other error aborts the process.
pub fn accept_action(event: AcceptEvent) -> (action: Action)
    ensures
        action == spec_action(event),
        event == AcceptEvent::WouldBlock ==> action == Action::Idle,
        event != AcceptEvent::Failed ==> action != Action::Abort,
{
    match event {
        AcceptEvent::Connected => Action::Serve,
        AcceptEvent::WouldBlock => Action::Idle,
        AcceptEvent::Failed => Action::Abort,
    }
}

/// Decide, from the shutdown flag as read at the cycle's end, whether
/// the loop polls again: it stops exactly when the flag is set.
pub fn next_flow(shutdown: bool) -> (flow: Flow)
    ensures
        flow == spec_flow(shutdown),
        flow == Flow::Stopped <==> shutdown,
{
    if shutdown {
        Flow::Stopped
    } else {
        Flow::Polling
    }
}

/// A would-block accept is benign: it never calls for an abort, and as
/// long as no shutdown was requested the loop keeps polling.
pub proof fn lemma_would_block_is_benign(shutdown: bool)
    ensures
        spec_cycle(AcceptEvent::WouldBlock, shutdown).0 == Action::Idle,
        !shutdown ==> spec_cycle(AcceptEvent::WouldBlock, shutdown).1 == Flow::Polling,
{
}

/// How many cycles a run executes, given the observations the cycles
/// would make in order: each cycle consumes one observation, and the
/// run ends with the first cycle whose flow is [`Flow::Stopped`].
pub open spec fn spec_run_len(observations: Seq<(AcceptEvent, bool)>) -> nat
    decreases observations.len(),
{
    if observations.len() == 0 {
        0
    } else if spec_cycle(observations[0].0, observations[0].1).1 == Flow::Stopped {
        1
    } else {
        1 + spec_run_len(observations.drop_first())
    }
}

/// Once a cycle observes the shutdown flag set, no further cycle begins:
/// in a run whose cycle `i` would read the flag as set, at most the
/// cycles up to and including `i` execute — at most one of them, the one
/// already in flight, after the signal is delivered.
pub proof fn lemma_at_most_one_cycle_after_shutdown(
    observations: Seq<(AcceptEvent, bool)>,
    i: int,
)
    requires
        0 <= i < observations.len(),
        observations[i].1,
    ensures
        spec_run_len(observations) <= i + 1,
    decreases i,
{
    if spec_cycle(observations[0].0, observations[0].1).1 != Flow::Stopped {
        lemma_at_most_one_cycle_after_shutdown(observations.drop_first(), i - 1);
    }
}

} // verus!
