//! The transition engine: the specification of which events are legal in
//! which state, what the successor state is, which directives a transition
//! emits, and the executable functions that apply events to a call record.
//!
//! Tie-break policy: repeated delivery of an event that would produce the
//! current state again is absorbed as a no-op (no directive re-emitted)
//! rather than rejected, because network callbacks may be delivered more
//! than once. The one duplicate left open to configuration is a disconnect
//! event while already disconnected, chosen by
//! [`crate::types::DisconnectPolicy`].

use vstd::prelude::*;

use crate::types::CallDirection;
use crate::types::CallId;
use crate::types::CallState;
use crate::types::Directive;
use crate::types::DisconnectPolicy;
use crate::types::Event;
use crate::types::ReconnectingState;
use crate::types::TerminationReason;
use crate::types::TransitionError;

verus! {

/// The events that force teardown: all of them are legal from every
/// non-terminal state and produce `Terminating`.
pub open spec fn is_terminator(event: Event) -> bool {
    ||| event is ReconnectFailed
    ||| event is Hangup
    ||| event is ErrorOccurred
    ||| event is Timeout
}

/// The payload a reconnection attempt must carry, derived from whether the
/// call has ever reached `CallConnected`.
pub open spec fn reconnect_target(ever_connected: bool) -> ReconnectingState {
    if ever_connected {
        ReconnectingState::AfterConnected
    } else {
        ReconnectingState::BeforeConnected
    }
}

/// Whether `event` is legal for a call in `state` with the given direction
/// and connection history. Exactly the accepted combinations produce a
/// successor; every other combination is rejected with the error given by
/// [`rejection`] and leaves the record unchanged.
pub open spec fn accepts(
    state: CallState,
    direction: CallDirection,
    ever_connected: bool,
    policy: DisconnectPolicy,
    event: Event,
) -> bool {
    &&& !(state is Terminating)
    &&& match event {
        Event::StartOutgoing => direction is Outgoing && (state is Idle || state is SendingOffer),
        Event::OfferSent => direction is Outgoing && (state is SendingOffer || state
            == CallState::IceConnecting(false)),
        Event::RemoteOfferReceived => direction is Incoming && (state is Idle || state
            == CallState::IceConnecting(false)),
        Event::LocalAndRemoteDescriptionsSet => state is IceConnecting,
        Event::IceConnectedEvent => state == CallState::IceConnecting(true) || state is IceConnected,
        Event::CallAccepted => state is IceConnected || state is CallConnected,
        Event::IceDisconnectedEvent => state is IceConnected || state is CallConnected || (state
            is IceDisconnected && policy is Idempotent),
        Event::ReconnectAttemptStarted => state is IceDisconnected || state
            == CallState::IceReconnecting(reconnect_target(ever_connected)),
        Event::ReconnectSucceeded => state is IceReconnecting || (ever_connected && state
            is CallConnected) || (!ever_connected && state == CallState::IceConnecting(true)),
        Event::ReconnectFailed | Event::Hangup | Event::ErrorOccurred | Event::Timeout => true,
    }
}

/// The successor state of an accepted event. Meaningful only where
/// [`accepts`] holds.
pub open spec fn next_state(state: CallState, ever_connected: bool, event: Event) -> CallState {
    match event {
        Event::StartOutgoing => CallState::SendingOffer,
        Event::OfferSent | Event::RemoteOfferReceived => CallState::IceConnecting(false),
        Event::LocalAndRemoteDescriptionsSet => CallState::IceConnecting(true),
        Event::IceConnectedEvent => CallState::IceConnected,
        Event::CallAccepted => CallState::CallConnected,
        Event::IceDisconnectedEvent => CallState::IceDisconnected,
        Event::ReconnectAttemptStarted => CallState::IceReconnecting(
            reconnect_target(ever_connected),
        ),
        Event::ReconnectSucceeded => match state {
            CallState::IceReconnecting(ReconnectingState::AfterConnected) => CallState::CallConnected,
            CallState::IceReconnecting(ReconnectingState::BeforeConnected) => CallState::IceConnecting(
                true,
            ),
            // Duplicate delivery while already at the fallback target: no-op.
            _ => state,
        },
        Event::ReconnectFailed | Event::Hangup | Event::ErrorOccurred | Event::Timeout => CallState::Terminating,
    }
}

/// Whether the call has ever reached `CallConnected` after the event is
/// applied: the flag is set on entering `CallConnected` and never cleared.
pub open spec fn next_ever_connected(state: CallState, ever_connected: bool, event: Event) -> bool {
    ever_connected || next_state(state, ever_connected, event) is CallConnected
}

/// The reason carried by the teardown directive: clean for a user hangup,
/// an error context (triggering event and prior state) otherwise.
pub open spec fn termination_reason(state: CallState, event: Event) -> TerminationReason {
    if event is Hangup {
        TerminationReason::UserHangup
    } else {
        TerminationReason::Failure { event, prior: state }
    }
}

/// The directives an accepted event emits: the initial offer transmission
/// on leaving `Idle` for `SendingOffer`, the teardown directive on every
/// termination, and nothing otherwise. In particular an absorbed duplicate
/// re-emits no directive.
pub open spec fn emitted(state: CallState, event: Event) -> Seq<Directive> {
    if event is StartOutgoing && state is Idle {
        seq![Directive::TransmitLocalOffer]
    } else if is_terminator(event) {
        seq![Directive::TearDownTransport(termination_reason(state, event))]
    } else {
        Seq::empty()
    }
}

/// The error a rejected event produces: `AlreadyTerminating` once the
/// terminal state is reached, `IllegalTransition` otherwise.
pub open spec fn rejection(state: CallState, event: Event) -> TransitionError {
    if state is Terminating {
        TransitionError::AlreadyTerminating { event }
    } else {
        TransitionError::IllegalTransition { from: state, event }
    }
}

/// Well-formedness of a call record's (direction, state, history flag)
/// triple: only an outgoing call may be sending an offer, a connected call
/// has its history flag set, and a reconnection payload agrees with the
/// history flag.
pub open spec fn record_wf(direction: CallDirection, state: CallState, ever_connected: bool) -> bool {
    &&& direction is Incoming ==> !(state is SendingOffer)
    &&& state is CallConnected ==> ever_connected
    &&& state matches CallState::IceReconnecting(p) ==> p == reconnect_target(ever_connected)
}

/// One accepted transition: the successor state, the updated connection
/// history flag, and the directives collaborators must execute.
#[derive(Clone, Debug, PartialEq, Eq)]
pub struct Transition {
    /// The successor state.
    pub state: CallState,
    /// Whether the call has ever reached `CallConnected`, including by
    /// this transition.
    pub ever_connected: bool,
    /// The side-effect directives this transition emits, in order.
    pub directives: Vec<Directive>,
}

/// Validate `event` against the current state and compute the successor.
///
/// This is a pure mapping: the result is fully determined by the
/// arguments, with no hidden state, as the contract states.
pub fn transition(
    state: CallState,
    direction: CallDirection,
    ever_connected: bool,
    policy: DisconnectPolicy,
    event: Event,
) -> (r: Result<Transition, TransitionError>)
    ensures
        r is Ok <==> accepts(state, direction, ever_connected, policy, event),
        r matches Ok(t) ==> {
            &&& t.state == next_state(state, ever_connected, event)
            &&& t.ever_connected == next_ever_connected(state, ever_connected, event)
            &&& t.directives@ == emitted(state, event)
        },
        r matches Err(e) ==> e == rejection(state, event),
{
    if matches!(state, CallState::Terminating) {
        return Err(TransitionError::AlreadyTerminating { event });
    }
    let accepted: bool = match event {
        Event::StartOutgoing => matches!(direction, CallDirection::Outgoing) && matches!(
            state,
            CallState::Idle | CallState::SendingOffer,
        ),
        Event::OfferSent => matches!(direction, CallDirection::Outgoing) && matches!(
            state,
            CallState::SendingOffer | CallState::IceConnecting(false),
        ),
        Event::RemoteOfferReceived => matches!(direction, CallDirection::Incoming) && matches!(
            state,
            CallState::Idle | CallState::IceConnecting(false),
        ),
        Event::LocalAndRemoteDescriptionsSet => matches!(state, CallState::IceConnecting(_)),
        Event::IceConnectedEvent => matches!(
            state,
            CallState::IceConnecting(true) | CallState::IceConnected,
        ),
        Event::CallAccepted => matches!(state, CallState::IceConnected | CallState::CallConnected),
        Event::IceDisconnectedEvent => matches!(
            state,
            CallState::IceConnected | CallState::CallConnected,
        ) || (matches!(state, CallState::IceDisconnected) && matches!(
            policy,
            DisconnectPolicy::Idempotent,
        )),
        Event::ReconnectAttemptStarted => match state {
            CallState::IceDisconnected => true,
            CallState::IceReconnecting(p) => matches!(p, ReconnectingState::AfterConnected)
                == ever_connected,
            _ => false,
        },
        Event::ReconnectSucceeded => match state {
            CallState::IceReconnecting(_) => true,
            CallState::CallConnected => ever_connected,
            CallState::IceConnecting(true) => !ever_connected,
            _ => false,
        },
        Event::ReconnectFailed | Event::Hangup | Event::ErrorOccurred | Event::Timeout => true,
    };
    if !accepted {
        return Err(TransitionError::IllegalTransition { from: state, event });
    }
    let next: CallState = match event {
        Event::StartOutgoing => CallState::SendingOffer,
        Event::OfferSent | Event::RemoteOfferReceived => CallState::IceConnecting(false),
        Event::LocalAndRemoteDescriptionsSet => CallState::IceConnecting(true),
        Event::IceConnectedEvent => CallState::IceConnected,
        Event::CallAccepted => CallState::CallConnected,
        Event::IceDisconnectedEvent => CallState::IceDisconnected,
        Event::ReconnectAttemptStarted => if ever_connected {
            CallState::IceReconnecting(ReconnectingState::AfterConnected)
        } else {
            CallState::IceReconnecting(ReconnectingState::BeforeConnected)
        },
        Event::ReconnectSucceeded => match state {
            CallState::IceReconnecting(ReconnectingState::AfterConnected) => CallState::CallConnected,
            CallState::IceReconnecting(ReconnectingState::BeforeConnected) => CallState::IceConnecting(
                true,
            ),
            _ => state,
        },
        Event::ReconnectFailed | Event::Hangup | Event::ErrorOccurred | Event::Timeout => CallState::Terminating,
    };
    let mut directives: Vec<Directive> = Vec::new();
    if matches!(event, Event::StartOutgoing) && matches!(state, CallState::Idle) {
        directives.push(Directive::TransmitLocalOffer);
    } else if matches!(
        event,
        Event::ReconnectFailed | Event::Hangup | Event::ErrorOccurred | Event::Timeout,
    ) {
        let reason = if matches!(event, Event::Hangup) {
            TerminationReason::UserHangup
        } else {
            TerminationReason::Failure { event, prior: state }
        };
        directives.push(Directive::TearDownTransport(reason));
    }
    proof {
        assert(directives@ =~= emitted(state, event));
    }
    Ok(
        Transition {
            state: next,
            ever_connected: ever_connected || matches!(next, CallState::CallConnected),
            directives,
        },
    )
}

/// An accepted event preserves well-formedness of the record's
/// (direction, state, history flag) triple.
pub proof fn lemma_transition_preserves_wf(
    state: CallState,
    direction: CallDirection,
    ever_connected: bool,
    policy: DisconnectPolicy,
    event: Event,
)
    requires
        record_wf(direction, state, ever_connected),
        accepts(state, direction, ever_connected, policy, event),
    ensures
        record_wf(
            direction,
            next_state(state, ever_connected, event),
            next_ever_connected(state, ever_connected, event),
        ),
{
}

/// The authoritative per-call value: identifier, direction, current state,
/// and whether the call has ever reached `CallConnected` (needed to derive
/// the payload of a later reconnection attempt). Mutated exclusively by
/// [`CallStateMachine::apply`].
#[derive(Clone, Copy, Debug, PartialEq, Eq, Structural)]
pub struct CallRecord {
    id: CallId,
    direction: CallDirection,
    state: CallState,
    ever_connected: bool,
}

impl CallRecord {
    /// The call identifier.
    pub closed spec fn spec_id(&self) -> CallId {
        self.id
    }

    /// The call direction.
    pub closed spec fn spec_direction(&self) -> CallDirection {
        self.direction
    }

    /// The current state.
    pub closed spec fn spec_state(&self) -> CallState {
        self.state
    }

    /// Whether the call has ever reached `CallConnected`.
    pub closed spec fn spec_ever_connected(&self) -> bool {
        self.ever_connected
    }

    /// Well-formedness: see [`record_wf`].
    pub open spec fn wf(&self) -> bool {
        record_wf(self.spec_direction(), self.spec_state(), self.spec_ever_connected())
    }

    /// A fresh record in the initial state `Idle`.
    pub fn new(id: CallId, direction: CallDirection) -> (r: CallRecord)
        ensures
            r.spec_id() == id,
            r.spec_direction() == direction,
            r.spec_state() is Idle,
            !r.spec_ever_connected(),
            r.wf(),
    {
        CallRecord { id, direction, state: CallState::Idle, ever_connected: false }
    }

    /// The call identifier.
    pub fn id(&self) -> (r: CallId)
        ensures
            r == self.spec_id(),
    {
        self.id
    }

    /// The call direction.
    pub fn direction(&self) -> (r: CallDirection)
        ensures
            r == self.spec_direction(),
    {
        self.direction
    }

    /// The current state.
    pub fn current_state(&self) -> (r: CallState)
        ensures
            r == self.spec_state(),
    {
        self.state
    }

    /// Whether the call has ever reached `CallConnected`.
    pub fn ever_connected(&self) -> (r: bool)
        ensures
            r == self.spec_ever_connected(),
    {
        self.ever_connected
    }
}

/// The transition engine. It holds no per-call state, only the configured
/// policy for duplicate disconnect events; every outcome is a pure
/// function of the record and the event.
pub struct CallStateMachine {
    policy: DisconnectPolicy,
}

impl CallStateMachine {
    /// The configured policy for a disconnect event that arrives while the
    /// call is already disconnected.
    pub closed spec fn spec_policy(&self) -> DisconnectPolicy {
        self.policy
    }

    /// A machine with the given duplicate-disconnect policy.
    pub fn new(policy: DisconnectPolicy) -> (r: CallStateMachine)
        ensures
            r.spec_policy() == policy,
    {
        CallStateMachine { policy }
    }

    /// Apply one event to a call record: on acceptance mutate the record
    /// to the successor state and return the emitted directives; on
    /// rejection return the error and leave the record unchanged.
    pub fn apply(&self, record: &mut CallRecord, event: Event) -> (r: Result<
        Vec<Directive>,
        TransitionError,
    >)
        ensures
            final(record).spec_id() == old(record).spec_id(),
            final(record).spec_direction() == old(record).spec_direction(),
            r is Ok <==> accepts(
                old(record).spec_state(),
                old(record).spec_direction(),
                old(record).spec_ever_connected(),
                self.spec_policy(),
                event,
            ),
            r matches Ok(d) ==> {
                &&& final(record).spec_state() == next_state(
                    old(record).spec_state(),
                    old(record).spec_ever_connected(),
                    event,
                )
                &&& final(record).spec_ever_connected() == next_ever_connected(
                    old(record).spec_state(),
                    old(record).spec_ever_connected(),
                    event,
                )
                &&& d@ == emitted(old(record).spec_state(), event)
            },
            r matches Err(e) ==> *final(record) == *old(record) && e == rejection(
                old(record).spec_state(),
                event,
            ),
            old(record).wf() ==> final(record).wf(),
    {
        match transition(record.state, record.direction, record.ever_connected, self.policy, event) {
            Ok(t) => {
                proof {
                    if old(record).wf() {
                        lemma_transition_preserves_wf(
                            record.state,
                            record.direction,
                            record.ever_connected,
                            self.policy,
                            event,
                        );
                    }
                }
                record.state = t.state;
                record.ever_connected = t.ever_connected;
                Ok(t.directives)
            },
            Err(e) => Err(e),
        }
    }
}

} // verus!
