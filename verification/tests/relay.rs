use wheel_bridge::relay::{on_inbound, Inbound, Relay};

#[test]
fn text_is_echoed() {
    assert_eq!(on_inbound(Inbound::Text), Relay::Echo);
}

#[test]
fn other_frames_are_ignored() {
    assert_eq!(on_inbound(Inbound::Other), Relay::Ignore);
}

#[test]
fn close_error_and_end_disconnect() {
    assert_eq!(on_inbound(Inbound::Close), Relay::Disconnect);
    assert_eq!(on_inbound(Inbound::Failed), Relay::Disconnect);
    assert_eq!(on_inbound(Inbound::Finished), Relay::Disconnect);
}
