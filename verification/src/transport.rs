//! What a connection's transport and a stream's channel hand to the relay, as
//! plain values: inbound transport messages, decoded handshake messages and
//! the outcomes of waiting on a channel.

use vstd::prelude::*;

verus! {

/// The phase of a connection's life that clients can observe.
#[derive(Clone, Copy, Debug, PartialEq, Eq, Structural)]
pub enum Phase {
    /// The handshake has not been completed.
    AwaitingHandshake,
    /// Frames flow.
    Active,
    /// The connection is over.
    Closed,
}

/// One message read from a connection's transport.
#[derive(Debug, PartialEq, Eq)]
pub enum Inbound {
    /// A textual control message.
    Text(String),
    /// A binary frame.
    Binary(Vec<u8>),
    /// A liveness probe carrying a payload to echo.
    Ping(Vec<u8>),
    /// The answer to a liveness probe.
    Pong(Vec<u8>),
    /// The peer closed the connection, or the transport has ended.
    Close,
    /// The transport reported an error.
    Error,
}

/// What waiting on a stream's channel yields.
#[derive(Debug, PartialEq, Eq)]
pub enum Received {
    /// The next frame.
    Frame(Vec<u8>),
    /// The viewer fell behind by more than the channel retains and missed
    /// this many frames. It goes on from the oldest frame still retained.
    Lagged(u64),
    /// The session is gone and every retained frame has been read.
    Closed,
}

/// A publisher's handshake message, decoded.
#[derive(Debug, PartialEq, Eq)]
pub struct RegisterMsg {
    /// The message's `type` field.
    pub msg_type: String,
    /// The id the publisher chose, if it chose one.
    pub stream_id: Option<String>,
}

/// A viewer's handshake message, decoded.
#[derive(Debug, PartialEq, Eq)]
pub struct SubscribeMsg {
    /// The message's `type` field.
    pub msg_type: String,
    /// The stream the viewer wants to watch.
    pub stream_id: String,
}

/// Compares two string slices with `str`'s `==`, which holds exactly when
/// both hold the same characters.
#[verifier::external_body]
pub(crate) fn same_text(a: &str, b: &str) -> (same: bool)
    ensures
        same == (a@ == b@),
{
    a == b
}

impl RegisterMsg {
    /// Whether the message asks to register a stream.
    pub open spec fn asks_to_register(&self) -> bool {
        self.msg_type@ == "register"@
    }

    /// Whether the message asks to register a stream.
    pub fn is_register(&self) -> (yes: bool)
        ensures
            yes == self.asks_to_register(),
    {
        same_text(self.msg_type.as_str(), "register")
    }
}

impl SubscribeMsg {
    /// Whether the message asks to subscribe to a stream.
    pub open spec fn asks_to_subscribe(&self) -> bool {
        self.msg_type@ == "subscribe"@
    }

    /// Whether the message asks to subscribe to a stream.
    pub fn is_subscribe(&self) -> (yes: bool)
        ensures
            yes == self.asks_to_subscribe(),
    {
        same_text(self.msg_type.as_str(), "subscribe")
    }
}

} // verus!
