//! Tests of the fixed vocabulary: the data-channel label and the
//! human-readable names of states and directions.

use call_lifecycle::types::{CallDirection, CallState, ReconnectingState, DATA_CHANNEL_NAME};

#[test]
fn data_channel_label_is_fixed() {
    assert_eq!(DATA_CHANNEL_NAME, "signaling");
}

#[test]
fn direction_names() {
    assert_eq!(CallDirection::Incoming.describe(), "Incoming");
    assert_eq!(CallDirection::Outgoing.describe(), "Outgoing");
}

#[test]
fn state_names() {
    assert_eq!(CallState::Idle.describe(), "Idle");
    assert_eq!(CallState::SendingOffer.describe(), "SendingOffer");
    assert_eq!(
        CallState::IceConnecting(false).describe(),
        "IceConnecting(descriptions pending)"
    );
    assert_eq!(
        CallState::IceConnecting(true).describe(),
        "IceConnecting(descriptions set)"
    );
    assert_eq!(CallState::IceConnected.describe(), "IceConnected");
    assert_eq!(CallState::IceDisconnected.describe(), "IceDisconnected");
    assert_eq!(
        CallState::IceReconnecting(ReconnectingState::AfterConnected).describe(),
        "IceReconnecting(AfterConnected)"
    );
    assert_eq!(
        CallState::IceReconnecting(ReconnectingState::BeforeConnected).describe(),
        "IceReconnecting(BeforeConnected)"
    );
    assert_eq!(CallState::CallConnected.describe(), "CallConnected");
    assert_eq!(CallState::Terminating.describe(), "Terminating");
}
