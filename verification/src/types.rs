//! The vocabulary of the call lifecycle: call identity and direction, the
//! call states, the events that drive transitions, the directives a
//! transition emits for collaborators, and the error taxonomy.

use vstd::prelude::*;

verus! {

/// Unique call identification number. Assigned by the collaborator that
/// creates the call and never reused while any state for the call is
/// retained.
pub type CallId = u64;

/// The negotiated label of the data channel that carries in-call control
/// messages once the call is connected.
pub const DATA_CHANNEL_NAME: &'static str = "signaling";

/// The call direction, fixed once at call creation from the triggering
/// event: a remote offer arrived (incoming) or a local call start was
/// requested (outgoing).
#[derive(Clone, Copy, Debug, PartialEq, Eq, Structural)]
pub enum CallDirection {
    /// Incoming call.
    Incoming,
    /// Outgoing call.
    Outgoing,
}

/// Records whether the call had already reached `CallConnected` when ICE
/// connectivity was lost. Valid only as the payload of
/// [`CallState::IceReconnecting`]; it determines the fallback state if
/// reconnection succeeds.
#[derive(Clone, Copy, Debug, PartialEq, Eq, Structural)]
pub enum ReconnectingState {
    /// ICE disconnected after the call was connected.
    AfterConnected,
    /// ICE disconnected before the call was connected.
    BeforeConnected,
}

/// Tracks the state of the call.
#[derive(Clone, Copy, Debug, PartialEq, Eq, Structural)]
pub enum CallState {
    /// No active negotiation; the initial state.
    Idle,
    /// Outgoing call only: the local offer has been generated and is being
    /// transmitted.
    SendingOffer,
    /// ICE negotiation in progress. The `bool` is `true` once this end of
    /// the call has set both the *local* and the *remote* session
    /// description, independent of whether ICE connectivity has succeeded.
    IceConnecting(bool),
    /// ICE connectivity established; the call is not yet accepted at the
    /// call-control level.
    IceConnected,
    /// Previously connected ICE has lost connectivity; a reconnection
    /// window is open.
    IceDisconnected,
    /// An active attempt to restore ICE connectivity. The payload records
    /// whether the disconnect happened before or after the call reached
    /// `CallConnected`.
    IceReconnecting(ReconnectingState),
    /// The callee has accepted the call and ICE is connected; the call is
    /// fully established.
    CallConnected,
    /// Teardown in progress. Terminal: no transition leaves this state.
    Terminating,
}

/// The events that drive the state machine, delivered by collaborators:
/// local intent, remote signaling, and transport connectivity callbacks.
#[derive(Clone, Copy, Debug, PartialEq, Eq, Structural)]
pub enum Event {
    /// The local user asked to start an outgoing call.
    StartOutgoing,
    /// The local offer has been handed to the signaling transport.
    OfferSent,
    /// A remote offer arrived for an incoming call.
    RemoteOfferReceived,
    /// Both the local and the remote session description are now set on
    /// this end.
    LocalAndRemoteDescriptionsSet,
    /// The transport reports that ICE connectivity is established.
    IceConnectedEvent,
    /// The callee accepted the call.
    CallAccepted,
    /// The transport reports that ICE connectivity was lost.
    IceDisconnectedEvent,
    /// The transport started an attempt to restore ICE connectivity.
    ReconnectAttemptStarted,
    /// The reconnection attempt restored ICE connectivity.
    ReconnectSucceeded,
    /// The reconnection attempt gave up.
    ReconnectFailed,
    /// The local user hung up.
    Hangup,
    /// A collaborator reported an unrecoverable error on this call.
    ErrorOccurred,
    /// A collaborator-detected timeout expired for this call.
    Timeout,
}

/// Why a call is being torn down; carried by
/// [`Directive::TearDownTransport`].
#[derive(Clone, Copy, Debug, PartialEq, Eq, Structural)]
pub enum TerminationReason {
    /// Voluntary, clean termination: the user hung up.
    UserHangup,
    /// Termination forced by a failure, error or timeout; carries the
    /// triggering event and the state the call was in, for logging.
    Failure { event: Event, prior: CallState },
}

/// A side-effect directive emitted by a transition, to be executed
/// asynchronously by a collaborator; the state machine does not await it.
#[derive(Clone, Copy, Debug, PartialEq, Eq, Structural)]
pub enum Directive {
    /// Transmit the local offer to the remote peer.
    TransmitLocalOffer,
    /// Tear down the transport and notify collaborators, with the reason.
    TearDownTransport(TerminationReason),
}

/// Policy for a disconnect event that arrives while the call is already
/// `IceDisconnected`. Whether such a duplicate should be absorbed or
/// counted as illegal is a deployment decision, so it is configurable
/// rather than fixed.
#[derive(Clone, Copy, Debug, PartialEq, Eq, Structural)]
pub enum DisconnectPolicy {
    /// A duplicate disconnect is absorbed as a no-op.
    Idempotent,
    /// A duplicate disconnect is rejected as an illegal transition.
    Reject,
}

/// The error taxonomy. No variant is fatal: the caller logs the error and
/// decides whether to force the call to `Terminating`.
#[derive(Clone, Copy, Debug, PartialEq, Eq, Structural)]
pub enum TransitionError {
    /// The event is not valid for the current state and direction; the
    /// call record is left unchanged.
    IllegalTransition { from: CallState, event: Event },
    /// The event arrived after the call reached its terminal state; it is
    /// ignored.
    AlreadyTerminating { event: Event },
    /// The operation referenced a call identifier with no live record.
    UnknownCall { id: CallId },
}

impl CallDirection {
    /// A fixed, human-readable name of the direction.
    pub fn describe(&self) -> (r: &'static str)
        ensures
            self is Incoming ==> r@ == "Incoming"@,
            self is Outgoing ==> r@ == "Outgoing"@,
    {
        match self {
            CallDirection::Incoming => "Incoming",
            CallDirection::Outgoing => "Outgoing",
        }
    }
}

impl CallState {
    /// A fixed, human-readable name of the state; the payloads of
    /// `IceConnecting` and `IceReconnecting` are folded into the name.
    pub fn describe(&self) -> (r: &'static str)
        ensures
            self is Idle ==> r@ == "Idle"@,
            self is SendingOffer ==> r@ == "SendingOffer"@,
            *self == CallState::IceConnecting(false) ==> r@ == "IceConnecting(descriptions pending)"@,
            *self == CallState::IceConnecting(true) ==> r@ == "IceConnecting(descriptions set)"@,
            self is IceConnected ==> r@ == "IceConnected"@,
            self is IceDisconnected ==> r@ == "IceDisconnected"@,
            *self == CallState::IceReconnecting(ReconnectingState::AfterConnected) ==> r@
                == "IceReconnecting(AfterConnected)"@,
            *self == CallState::IceReconnecting(ReconnectingState::BeforeConnected) ==> r@
                == "IceReconnecting(BeforeConnected)"@,
            self is CallConnected ==> r@ == "CallConnected"@,
            self is Terminating ==> r@ == "Terminating"@,
    {
        match self {
            CallState::Idle => "Idle",
            CallState::SendingOffer => "SendingOffer",
            CallState::IceConnecting(false) => "IceConnecting(descriptions pending)",
            CallState::IceConnecting(true) => "IceConnecting(descriptions set)",
            CallState::IceConnected => "IceConnected",
            CallState::IceDisconnected => "IceDisconnected",
            CallState::IceReconnecting(ReconnectingState::AfterConnected) => "IceReconnecting(AfterConnected)",
            CallState::IceReconnecting(ReconnectingState::BeforeConnected) => "IceReconnecting(BeforeConnected)",
            CallState::CallConnected => "CallConnected",
            CallState::Terminating => "Terminating",
        }
    }
}

} // verus!
