//! Tests of the pure transition function: determinism, direction
//! restrictions, idempotent duplicates, emitted directives, and the
//! configurable duplicate-disconnect policy.

use call_lifecycle::machine::{transition, Transition};
use call_lifecycle::types::{
    CallDirection, CallState, Directive, DisconnectPolicy, Event, ReconnectingState,
    TerminationReason, TransitionError,
};

fn all_states() -> Vec<CallState> {
    vec![
        CallState::Idle,
        CallState::SendingOffer,
        CallState::IceConnecting(false),
        CallState::IceConnecting(true),
        CallState::IceConnected,
        CallState::IceDisconnected,
        CallState::IceReconnecting(ReconnectingState::AfterConnected),
        CallState::IceReconnecting(ReconnectingState::BeforeConnected),
        CallState::CallConnected,
        CallState::Terminating,
    ]
}

fn all_events() -> Vec<Event> {
    vec![
        Event::StartOutgoing,
        Event::OfferSent,
        Event::RemoteOfferReceived,
        Event::LocalAndRemoteDescriptionsSet,
        Event::IceConnectedEvent,
        Event::CallAccepted,
        Event::IceDisconnectedEvent,
        Event::ReconnectAttemptStarted,
        Event::ReconnectSucceeded,
        Event::ReconnectFailed,
        Event::Hangup,
        Event::ErrorOccurred,
        Event::Timeout,
    ]
}

fn all_directions() -> Vec<CallDirection> {
    vec![CallDirection::Incoming, CallDirection::Outgoing]
}

fn all_policies() -> Vec<DisconnectPolicy> {
    vec![DisconnectPolicy::Idempotent, DisconnectPolicy::Reject]
}

fn same_outcome(
    a: &Result<Transition, TransitionError>,
    b: &Result<Transition, TransitionError>,
) -> bool {
    match (a, b) {
        (Ok(x), Ok(y)) => {
            x.state == y.state && x.ever_connected == y.ever_connected
                && x.directives == y.directives
        }
        (Err(x), Err(y)) => x == y,
        _ => false,
    }
}

#[test]
fn transition_is_deterministic_over_all_inputs() {
    for &state in &all_states() {
        for &direction in &all_directions() {
            for &ever in &[false, true] {
                for &policy in &all_policies() {
                    for &event in &all_events() {
                        let r1 = transition(state, direction, ever, policy, event);
                        let r2 = transition(state, direction, ever, policy, event);
                        assert!(same_outcome(&r1, &r2));
                    }
                }
            }
        }
    }
}

#[test]
fn sending_offer_never_produced_for_incoming() {
    for &state in &all_states() {
        for &direction in &all_directions() {
            for &ever in &[false, true] {
                for &policy in &all_policies() {
                    for &event in &all_events() {
                        if let Ok(t) = transition(state, direction, ever, policy, event) {
                            if t.state == CallState::SendingOffer {
                                assert_eq!(direction, CallDirection::Outgoing);
                            }
                        }
                    }
                }
            }
        }
    }
}

#[test]
fn start_outgoing_emits_offer_directive() {
    let t = transition(
        CallState::Idle,
        CallDirection::Outgoing,
        false,
        DisconnectPolicy::Idempotent,
        Event::StartOutgoing,
    )
    .unwrap();
    assert_eq!(t.state, CallState::SendingOffer);
    assert!(!t.ever_connected);
    assert_eq!(t.directives, vec![Directive::TransmitLocalOffer]);
}

#[test]
fn start_outgoing_rejected_for_incoming() {
    let r = transition(
        CallState::Idle,
        CallDirection::Incoming,
        false,
        DisconnectPolicy::Idempotent,
        Event::StartOutgoing,
    );
    assert_eq!(
        r,
        Err(TransitionError::IllegalTransition { from: CallState::Idle, event: Event::StartOutgoing })
    );
}

#[test]
fn ice_connected_event_needs_descriptions_set() {
    let r = transition(
        CallState::IceConnecting(false),
        CallDirection::Outgoing,
        false,
        DisconnectPolicy::Idempotent,
        Event::IceConnectedEvent,
    );
    assert_eq!(
        r,
        Err(TransitionError::IllegalTransition {
            from: CallState::IceConnecting(false),
            event: Event::IceConnectedEvent,
        })
    );
    let t = transition(
        CallState::IceConnecting(true),
        CallDirection::Outgoing,
        false,
        DisconnectPolicy::Idempotent,
        Event::IceConnectedEvent,
    )
    .unwrap();
    assert_eq!(t.state, CallState::IceConnected);
    assert!(t.directives.is_empty());
}

#[test]
fn descriptions_set_is_idempotent() {
    let t = transition(
        CallState::IceConnecting(true),
        CallDirection::Incoming,
        false,
        DisconnectPolicy::Idempotent,
        Event::LocalAndRemoteDescriptionsSet,
    )
    .unwrap();
    assert_eq!(t.state, CallState::IceConnecting(true));
    assert!(t.directives.is_empty());
}

#[test]
fn ice_connected_duplicate_is_silent_noop() {
    // Delivering the connectivity callback twice in succession while
    // already connected keeps the state and re-emits nothing.
    for _ in 0..2 {
        let t = transition(
            CallState::IceConnected,
            CallDirection::Outgoing,
            false,
            DisconnectPolicy::Idempotent,
            Event::IceConnectedEvent,
        )
        .unwrap();
        assert_eq!(t.state, CallState::IceConnected);
        assert!(!t.ever_connected);
        assert!(t.directives.is_empty());
    }
}

#[test]
fn duplicate_disconnect_follows_policy() {
    let idem = transition(
        CallState::IceDisconnected,
        CallDirection::Outgoing,
        true,
        DisconnectPolicy::Idempotent,
        Event::IceDisconnectedEvent,
    );
    let t = idem.unwrap();
    assert_eq!(t.state, CallState::IceDisconnected);
    assert!(t.directives.is_empty());

    let reject = transition(
        CallState::IceDisconnected,
        CallDirection::Outgoing,
        true,
        DisconnectPolicy::Reject,
        Event::IceDisconnectedEvent,
    );
    assert_eq!(
        reject,
        Err(TransitionError::IllegalTransition {
            from: CallState::IceDisconnected,
            event: Event::IceDisconnectedEvent,
        })
    );
}

#[test]
fn hangup_emits_clean_teardown() {
    let t = transition(
        CallState::CallConnected,
        CallDirection::Incoming,
        true,
        DisconnectPolicy::Idempotent,
        Event::Hangup,
    )
    .unwrap();
    assert_eq!(t.state, CallState::Terminating);
    assert_eq!(
        t.directives,
        vec![Directive::TearDownTransport(TerminationReason::UserHangup)]
    );
}

#[test]
fn timeout_emits_teardown_with_error_context() {
    let t = transition(
        CallState::SendingOffer,
        CallDirection::Outgoing,
        false,
        DisconnectPolicy::Idempotent,
        Event::Timeout,
    )
    .unwrap();
    assert_eq!(t.state, CallState::Terminating);
    assert_eq!(
        t.directives,
        vec![Directive::TearDownTransport(TerminationReason::Failure {
            event: Event::Timeout,
            prior: CallState::SendingOffer,
        })]
    );
}

#[test]
fn reconnect_succeeded_falls_back_by_payload() {
    let after = transition(
        CallState::IceReconnecting(ReconnectingState::AfterConnected),
        CallDirection::Outgoing,
        true,
        DisconnectPolicy::Idempotent,
        Event::ReconnectSucceeded,
    )
    .unwrap();
    assert_eq!(after.state, CallState::CallConnected);
    let before = transition(
        CallState::IceReconnecting(ReconnectingState::BeforeConnected),
        CallDirection::Outgoing,
        false,
        DisconnectPolicy::Idempotent,
        Event::ReconnectSucceeded,
    )
    .unwrap();
    assert_eq!(before.state, CallState::IceConnecting(true));
}
