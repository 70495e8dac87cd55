//! The client's side of a connection: what to do with what arrives from it.
//!
//! The client has no commands. Text is echoed to the log, a close frame or a
//! broken channel ends the connection, and the session that serves the
//! client is then told to stop.

use vstd::prelude::*;

verus! {

/// What the channel from the client yielded.
#[derive(Clone, Copy, Debug, PartialEq, Eq, Structural)]
pub enum Inbound {
    /// A text frame.
    Text,
    /// A close frame.
    Close,
    /// Any other frame.
    Other,
    /// The channel reported an error.
    Failed,
    /// The channel came to its end.
    Finished,
}

/// What the caller does about it.
#[derive(Clone, Copy, Debug, PartialEq, Eq, Structural)]
pub enum Relay {
    /// Print the text and go on receiving.
    Echo,
    /// Go on receiving.
    Ignore,
    /// Stop receiving and request the cancellation of the session.
    Disconnect,
}

/// The connection lasts until a close frame, an error or the end of the
/// channel.
pub open spec fn ends_connection(event: Inbound) -> bool {
    event == Inbound::Close || event == Inbound::Failed || event == Inbound::Finished
}

/// The response to one inbound event.
pub open spec fn relay_of(event: Inbound) -> Relay {
    if ends_connection(event) {
        Relay::Disconnect
    } else if event == Inbound::Text {
        Relay::Echo
    } else {
        Relay::Ignore
    }
}

/// Decides what to do with one inbound event.
pub fn on_inbound(event: Inbound) -> (relay: Relay)
    ensures
        relay == relay_of(event),
        relay == Relay::Disconnect <==> ends_connection(event),
{
    match event {
        Inbound::Text => Relay::Echo,
        Inbound::Other => Relay::Ignore,
        Inbound::Close => Relay::Disconnect,
        Inbound::Failed => Relay::Disconnect,
        Inbound::Finished => Relay::Disconnect,
    }
}

} // verus!
