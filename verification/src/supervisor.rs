//! The per-connection supervisor state machine.
//!
//! A connection moves through the states Accepted, Admitted, Handshaking,
//! Bridging, Closing and Closed. The supervisor decides every transition;
//! the caller performs the socket work each decision names and reports its
//! outcome as the next event. The admission slot taken on a successful
//! admission is given back exactly once, on every exit path: after a failed
//! handshake as well as after normal bridging teardown.

use vstd::prelude::*;

verus! {

/// Where a connection stands in its lifecycle.
#[derive(Clone, Copy, Debug, PartialEq, Eq, Structural)]
pub enum SupervisorState {
    /// The stream connection was accepted; admission not yet attempted.
    Accepted,
    /// An admission slot is held; the greeting has not arrived yet.
    Admitted,
    /// The 9 greeting bytes arrived and are being validated.
    Handshaking,
    /// Both forwarding loops are running.
    Bridging,
    /// A forwarding loop returned; endpoints are being torn down.
    Closing,
    /// The connection is gone; nothing is owed.
    Closed,
}

/// What happened to the connection.
#[derive(Clone, Copy, Debug, PartialEq, Eq, Structural)]
pub enum SupervisorEvent {
    /// The admission attempt succeeded (true) or hit the ceiling (false).
    Admission(bool),
    /// The 9 greeting bytes were read.
    GreetingArrived,
    /// The greeting read failed before 9 bytes arrived.
    GreetingReadFailed,
    /// The greeting's protocol version is valid.
    GreetingValid,
    /// The greeting's protocol version is invalid.
    GreetingInvalid,
    /// One forwarding loop returned, so the bridge is coming down.
    BridgeFinished,
    /// Streams and the datagram endpoint are closed.
    TeardownComplete,
}

/// What the caller must do next.
#[derive(Clone, Copy, Debug, PartialEq, Eq, Structural)]
pub enum SupervisorAction {
    /// Close the stream. No admission slot was taken, so none is owed.
    Reject,
    /// Read the 9 greeting bytes from the stream.
    ReadGreeting,
    /// Validate the greeting that arrived.
    ValidateGreeting,
    /// Open the ephemeral datagram endpoint and start both forwarding
    /// loops, sharing one liveness flag initialized true.
    StartBridge,
    /// Clear the liveness flag so the surviving loop exits, and close the
    /// stream and the datagram endpoint.
    StopForwarding,
    /// Give the admission slot back and close whatever is still open. Owed
    /// exactly once per admitted connection.
    ReleaseAndClose,
}

/// The supervisor's view of one connection: its state, whether an admission
/// slot was ever taken, and whether it has been given back.
#[derive(Clone, Copy, Debug, PartialEq, Eq, Structural)]
pub struct Supervisor {
    pub state: SupervisorState,
    pub admitted: bool,
    pub released: bool,
}

/// Which events can occur in which state.
pub open spec fn event_allowed(s: SupervisorState, ev: SupervisorEvent) -> bool {
    match ev {
        SupervisorEvent::Admission(_) => s == SupervisorState::Accepted,
        SupervisorEvent::GreetingArrived => s == SupervisorState::Admitted,
        SupervisorEvent::GreetingReadFailed => s == SupervisorState::Admitted,
        SupervisorEvent::GreetingValid => s == SupervisorState::Handshaking,
        SupervisorEvent::GreetingInvalid => s == SupervisorState::Handshaking,
        SupervisorEvent::BridgeFinished => s == SupervisorState::Bridging,
        SupervisorEvent::TeardownComplete => s == SupervisorState::Closing,
    }
}

/// The transition table: the supervisor after an event, and the action the
/// caller owes for it.
pub open spec fn spec_step(s: Supervisor, ev: SupervisorEvent) -> (Supervisor, SupervisorAction)
    recommends
        event_allowed(s.state, ev),
{
    match ev {
        SupervisorEvent::Admission(granted) => if granted {
            (
                Supervisor { state: SupervisorState::Admitted, admitted: true, ..s },
                SupervisorAction::ReadGreeting,
            )
        } else {
            (Supervisor { state: SupervisorState::Closed, ..s }, SupervisorAction::Reject)
        },
        SupervisorEvent::GreetingArrived => (
            Supervisor { state: SupervisorState::Handshaking, ..s },
            SupervisorAction::ValidateGreeting,
        ),
        SupervisorEvent::GreetingReadFailed => (
            Supervisor { state: SupervisorState::Closed, released: true, ..s },
            SupervisorAction::ReleaseAndClose,
        ),
        SupervisorEvent::GreetingValid => (
            Supervisor { state: SupervisorState::Bridging, ..s },
            SupervisorAction::StartBridge,
        ),
        SupervisorEvent::GreetingInvalid => (
            Supervisor { state: SupervisorState::Closed, released: true, ..s },
            SupervisorAction::ReleaseAndClose,
        ),
        SupervisorEvent::BridgeFinished => (
            Supervisor { state: SupervisorState::Closing, ..s },
            SupervisorAction::StopForwarding,
        ),
        SupervisorEvent::TeardownComplete => (
            Supervisor { state: SupervisorState::Closed, released: true, ..s },
            SupervisorAction::ReleaseAndClose,
        ),
    }
}

impl Supervisor {
    /// The bookkeeping a reachable supervisor always satisfies: a slot is
    /// held (taken and not yet given back) exactly in the states between
    /// admission and teardown, and a closed connection has given its slot
    /// back exactly when it took one.
    pub open spec fn wf(self) -> bool {
        &&& (self.state == SupervisorState::Accepted ==> !self.admitted && !self.released)
        &&& (self.state == SupervisorState::Admitted || self.state == SupervisorState::Handshaking
            || self.state == SupervisorState::Bridging || self.state == SupervisorState::Closing
            ==> self.admitted && !self.released)
        &&& (self.state == SupervisorState::Closed ==> (self.released <==> self.admitted))
    }

    /// A freshly accepted connection.
    pub fn new() -> (s: Self)
        ensures
            s == (Supervisor {
                state: SupervisorState::Accepted,
                admitted: false,
                released: false,
            }),
            s.wf(),
    {
        Supervisor { state: SupervisorState::Accepted, admitted: false, released: false }
    }

    /// Takes one event and decides the transition and the action owed.
    ///
    /// The slot bookkeeping is exact: the action is `ReleaseAndClose`
    /// exactly when this step gives the slot back, and a slot once given
    /// back is never given back again.
    pub fn step(&mut self, ev: SupervisorEvent) -> (a: SupervisorAction)
        requires
            old(self).wf(),
            event_allowed(old(self).state, ev),
        ensures
            (*final(self), a) == spec_step(*old(self), ev),
            final(self).wf(),
            a == SupervisorAction::ReleaseAndClose <==> (final(self).released && !old(
                self,
            ).released),
            old(self).released ==> final(self).released,
            old(self).admitted ==> final(self).admitted,
    {
        match ev {
            SupervisorEvent::Admission(granted) => if granted {
                self.state = SupervisorState::Admitted;
                self.admitted = true;
                SupervisorAction::ReadGreeting
            } else {
                self.state = SupervisorState::Closed;
                SupervisorAction::Reject
            },
            SupervisorEvent::GreetingArrived => {
                self.state = SupervisorState::Handshaking;
                SupervisorAction::ValidateGreeting
            },
            SupervisorEvent::GreetingReadFailed => {
                self.state = SupervisorState::Closed;
                self.released = true;
                SupervisorAction::ReleaseAndClose
            },
            SupervisorEvent::GreetingValid => {
                self.state = SupervisorState::Bridging;
                SupervisorAction::StartBridge
            },
            SupervisorEvent::GreetingInvalid => {
                self.state = SupervisorState::Closed;
                self.released = true;
                SupervisorAction::ReleaseAndClose
            },
            SupervisorEvent::BridgeFinished => {
                self.state = SupervisorState::Closing;
                SupervisorAction::StopForwarding
            },
            SupervisorEvent::TeardownComplete => {
                self.state = SupervisorState::Closed;
                self.released = true;
                SupervisorAction::ReleaseAndClose
            },
        }
    }
}

/// A fresh supervisor, as `Supervisor::new` returns it.
pub open spec fn spec_new() -> Supervisor {
    Supervisor { state: SupervisorState::Accepted, admitted: false, released: false }
}

/// Whether a sequence of events can occur from `s`: each event is allowed
/// in the state the ones before it lead to.
pub open spec fn valid_trace(s: Supervisor, evs: Seq<SupervisorEvent>) -> bool
    decreases evs.len(),
{
    evs.len() == 0 || (event_allowed(s.state, evs[0]) && valid_trace(
        spec_step(s, evs[0]).0,
        evs.drop_first(),
    ))
}

/// The supervisor a sequence of events leads to from `s`.
pub open spec fn spec_run(s: Supervisor, evs: Seq<SupervisorEvent>) -> Supervisor
    decreases evs.len(),
{
    if evs.len() == 0 {
        s
    } else {
        spec_run(spec_step(s, evs[0]).0, evs.drop_first())
    }
}

/// How many of the actions along a sequence of events give the admission
/// slot back.
pub open spec fn releases_along(s: Supervisor, evs: Seq<SupervisorEvent>) -> int
    decreases evs.len(),
{
    if evs.len() == 0 {
        0
    } else {
        (if spec_step(s, evs[0]).1 == SupervisorAction::ReleaseAndClose {
            1int
        } else {
            0int
        }) + releases_along(spec_step(s, evs[0]).0, evs.drop_first())
    }
}

/// Along any possible run, well-formedness is preserved, admission and
/// release are monotone, and the slot is given back exactly once if at all:
/// precisely when the run starts with the slot not yet given back and ends
/// with it given back.
pub proof fn lemma_run_releases(s: Supervisor, evs: Seq<SupervisorEvent>)
    requires
        s.wf(),
        valid_trace(s, evs),
    ensures
        spec_run(s, evs).wf(),
        releases_along(s, evs) == if spec_run(s, evs).released && !s.released {
            1int
        } else {
            0int
        },
        s.released ==> spec_run(s, evs).released,
        s.admitted ==> spec_run(s, evs).admitted,
    decreases evs.len(),
{
    if evs.len() > 0 {
        lemma_run_releases(spec_step(s, evs[0]).0, evs.drop_first());
    }
}

/// The release discipline, over a whole connection lifecycle: any possible
/// run of a freshly accepted connection gives the admission slot back at
/// most once, and a run that reaches Closed gives it back exactly once if
/// the connection was admitted and never if it was rejected.
pub proof fn lemma_slot_released_exactly_once(evs: Seq<SupervisorEvent>)
    requires
        valid_trace(spec_new(), evs),
    ensures
        releases_along(spec_new(), evs) <= 1,
        spec_run(spec_new(), evs).state == SupervisorState::Closed ==> releases_along(
            spec_new(),
            evs,
        ) == if spec_run(spec_new(), evs).admitted {
            1int
        } else {
            0int
        },
{
    lemma_run_releases(spec_new(), evs);
}

} // verus!
