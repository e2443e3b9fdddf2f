//! The accept loop and its shutdown: the loop serves what it accepts until
//! it observes the shutdown signal, and serves nothing after that.

use vstd::prelude::*;

verus! {

/// Whether the loop still accepts.
#[derive(Clone, Copy, Debug, PartialEq, Eq, Structural)]
pub enum ListenerPhase {
    /// The loop waits for a connection or for the signal.
    Accepting,
    /// The loop has ended.
    Stopped,
}

/// What the loop's wait came back with.
#[derive(Clone, Copy, Debug, PartialEq, Eq, Structural)]
pub enum ListenerEvent {
    /// A client connected.
    Accepted,
    /// The shutdown signal changed, to this value.
    Signal(bool),
    /// Accepting failed.
    AcceptFailed,
}

/// What the loop does with it.
#[derive(Clone, Copy, Debug, PartialEq, Eq, Structural)]
pub enum ListenerAction {
    /// Hand the connection to a task of its own and go on accepting.
    Serve,
    /// Go on accepting.
    Wait,
    /// Leave the loop; the tasks already started run to their end.
    Stop,
    /// Leave the loop and report the failure.
    Fail,
    /// Close the connection unserved: it came after the signal.
    Discard,
}

/// One turn of the loop: the phase afterwards and what to do.
pub open spec fn listener_step(phase: ListenerPhase, event: ListenerEvent) -> (
    ListenerPhase,
    ListenerAction,
) {
    match (phase, event) {
        (ListenerPhase::Accepting, ListenerEvent::Accepted) => (
            ListenerPhase::Accepting,
            ListenerAction::Serve,
        ),
        (ListenerPhase::Accepting, ListenerEvent::Signal(false)) => (
            ListenerPhase::Accepting,
            ListenerAction::Wait,
        ),
        (ListenerPhase::Accepting, ListenerEvent::Signal(true)) => (
            ListenerPhase::Stopped,
            ListenerAction::Stop,
        ),
        (ListenerPhase::Accepting, ListenerEvent::AcceptFailed) => (
            ListenerPhase::Stopped,
            ListenerAction::Fail,
        ),
        (ListenerPhase::Stopped, ListenerEvent::Accepted) => (
            ListenerPhase::Stopped,
            ListenerAction::Discard,
        ),
        (ListenerPhase::Stopped, _) => (ListenerPhase::Stopped, ListenerAction::Stop),
    }
}

/// Decides one turn of the accept loop.
pub fn on_listener_event(phase: ListenerPhase, event: ListenerEvent) -> (next: (
    ListenerPhase,
    ListenerAction,
))
    ensures
        next == listener_step(phase, event),
{
    match phase {
        ListenerPhase::Accepting => match event {
            ListenerEvent::Accepted => (ListenerPhase::Accepting, ListenerAction::Serve),
            ListenerEvent::Signal(stop) => {
                if stop {
                    (ListenerPhase::Stopped, ListenerAction::Stop)
                } else {
                    (ListenerPhase::Accepting, ListenerAction::Wait)
                }
            },
            ListenerEvent::AcceptFailed => (ListenerPhase::Stopped, ListenerAction::Fail),
        },
        ListenerPhase::Stopped => match event {
            ListenerEvent::Accepted => (ListenerPhase::Stopped, ListenerAction::Discard),
            _ => (ListenerPhase::Stopped, ListenerAction::Stop),
        },
    }
}

/// The phase of a loop that began accepting, after the first `count` of
/// `events`.
pub open spec fn phase_after(events: Seq<ListenerEvent>, count: nat) -> ListenerPhase
    recommends
        count <= events.len(),
    decreases count,
{
    if count == 0 {
        ListenerPhase::Accepting
    } else {
        listener_step(phase_after(events, (count - 1) as nat), events[count - 1]).0
    }
}

/// What the loop does with event number `at`, counted from 0.
pub open spec fn action_at(events: Seq<ListenerEvent>, at: nat) -> ListenerAction
    recommends
        at < events.len(),
{
    listener_step(phase_after(events, at), events[at as int]).1
}

/// A loop that has stopped stays stopped.
pub proof fn lemma_stopped_for_good(events: Seq<ListenerEvent>, stopped: nat, later: nat)
    requires
        stopped <= later,
        phase_after(events, stopped) == ListenerPhase::Stopped,
    ensures
        phase_after(events, later) == ListenerPhase::Stopped,
    decreases later,
{
    if stopped < later {
        lemma_stopped_for_good(events, stopped, (later - 1) as nat);
    }
}

/// Once the signal was observed with the value true, no connection is
/// served: whatever is accepted later is discarded.
pub proof fn lemma_nothing_served_after_signal(
    events: Seq<ListenerEvent>,
    signal: nat,
    later: nat,
)
    requires
        signal < later < events.len(),
        events[signal as int] == ListenerEvent::Signal(true),
    ensures
        action_at(events, later) != ListenerAction::Serve,
{
    assert(phase_after(events, signal + 1) == ListenerPhase::Stopped);
    lemma_stopped_for_good(events, signal + 1, later);
}

/// Until the loop has stopped, every connection that is accepted is
/// served.
pub proof fn lemma_served_while_accepting(events: Seq<ListenerEvent>, at: nat)
    requires
        at < events.len(),
        phase_after(events, at) == ListenerPhase::Accepting,
        events[at as int] == ListenerEvent::Accepted,
    ensures
        action_at(events, at) == ListenerAction::Serve,
        phase_after(events, at + 1) == ListenerPhase::Accepting,
{
}

} // verus!
