//! Tests of the call table: creation, lookup, event delivery to one call
//! among several, unknown identifiers, and release after termination.

use call_lifecycle::table::CallTable;
use call_lifecycle::types::{
    CallDirection, CallState, Directive, DisconnectPolicy, Event, TransitionError,
};

#[test]
fn unknown_call_is_reported() {
    let mut table = CallTable::new(DisconnectPolicy::Idempotent);
    let r = table.apply_event(17, Event::Hangup);
    assert_eq!(r, Err(TransitionError::UnknownCall { id: 17 }));
    assert_eq!(table.len(), 0);
}

#[test]
fn calls_are_independent() {
    let mut table = CallTable::new(DisconnectPolicy::Idempotent);
    table.create_call(1, CallDirection::Outgoing);
    table.create_call(2, CallDirection::Incoming);
    assert_eq!(table.len(), 2);

    let d = table.apply_event(1, Event::StartOutgoing).unwrap();
    assert_eq!(d, vec![Directive::TransmitLocalOffer]);

    let one = table.record(1).unwrap();
    let two = table.record(2).unwrap();
    assert_eq!(one.current_state(), CallState::SendingOffer);
    assert_eq!(two.current_state(), CallState::Idle);

    table.apply_event(2, Event::RemoteOfferReceived).unwrap();
    let one = table.record(1).unwrap();
    let two = table.record(2).unwrap();
    assert_eq!(one.current_state(), CallState::SendingOffer);
    assert_eq!(two.current_state(), CallState::IceConnecting(false));
}

#[test]
fn release_after_terminating() {
    let mut table = CallTable::new(DisconnectPolicy::Idempotent);
    table.create_call(7, CallDirection::Outgoing);
    table.apply_event(7, Event::Hangup).unwrap();
    assert_eq!(
        table.record(7).unwrap().current_state(),
        CallState::Terminating
    );
    table.release(7).unwrap();
    assert!(!table.contains(7));
    assert_eq!(table.len(), 0);
    assert_eq!(
        table.release(7),
        Err(TransitionError::UnknownCall { id: 7 })
    );
}

#[test]
fn illegal_event_leaves_table_record_unchanged() {
    let mut table = CallTable::new(DisconnectPolicy::Idempotent);
    table.create_call(4, CallDirection::Incoming);
    let r = table.apply_event(4, Event::CallAccepted);
    assert_eq!(
        r,
        Err(TransitionError::IllegalTransition { from: CallState::Idle, event: Event::CallAccepted })
    );
    assert_eq!(table.record(4).unwrap().current_state(), CallState::Idle);
}

#[test]
fn identifier_can_be_reused_after_release() {
    let mut table = CallTable::new(DisconnectPolicy::Idempotent);
    table.create_call(11, CallDirection::Outgoing);
    table.apply_event(11, Event::ErrorOccurred).unwrap();
    table.release(11).unwrap();
    table.create_call(11, CallDirection::Incoming);
    let rec = table.record(11).unwrap();
    assert_eq!(rec.current_state(), CallState::Idle);
    assert_eq!(rec.direction(), CallDirection::Incoming);
}
