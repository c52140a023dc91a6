//! The fixed texts of the wire protocol: the replies whose content does not
//! depend on a stream id.

use crate::rejection::Rejection;
use vstd::prelude::*;

verus! {

/// The error reply a client is sent for `rejection`.
pub open spec fn error_reply_text(rejection: Rejection) -> Seq<char> {
    match rejection {
        Rejection::MaxStreams => r#"{"type":"error","message":"max streams reached"}"#@,
        Rejection::MaxViewers => r#"{"type":"error","message":"max viewers reached"}"#@,
        Rejection::StreamNotFound => r#"{"type":"error","message":"stream not found"}"#@,
    }
}

/// The error reply a client is sent for `rejection`.
pub fn error_reply(rejection: Rejection) -> (text: String)
    ensures
        text@ == error_reply_text(rejection),
{
    match rejection {
        Rejection::MaxStreams => r#"{"type":"error","message":"max streams reached"}"#.to_owned(),
        Rejection::MaxViewers => r#"{"type":"error","message":"max viewers reached"}"#.to_owned(),
        Rejection::StreamNotFound => r#"{"type":"error","message":"stream not found"}"#.to_owned(),
    }
}

/// The notice a viewer is sent when its stream's publisher has gone.
pub fn stream_ended() -> (text: String)
    ensures
        text@ == r#"{"type":"stream_ended"}"#@,
{
    r#"{"type":"stream_ended"}"#.to_owned()
}

} // verus!
