//! The reasons for which the relay turns a request down. A rejection concerns
//! the one request that met it and leaves every other connection alone.

use vstd::prelude::*;

verus! {

/// Why a registration or a subscription was refused.
#[derive(Clone, Copy, Debug, PartialEq, Eq, Structural)]
pub enum Rejection {
    /// The registry already holds as many streams as it may.
    MaxStreams,
    /// The stream already has as many viewers as it may.
    MaxViewers,
    /// No stream is registered under the id that was asked for.
    StreamNotFound,
}

impl Rejection {
    /// The text a client is shown for this rejection.
    pub open spec fn text(self) -> Seq<char> {
        match self {
            Rejection::MaxStreams => "max streams reached"@,
            Rejection::MaxViewers => "max viewers reached"@,
            Rejection::StreamNotFound => "stream not found"@,
        }
    }

    /// The text a client is shown for this rejection.
    pub fn message(&self) -> (text: String)
        ensures
            text@ == self.text(),
    {
        match self {
            Rejection::MaxStreams => "max streams reached".to_owned(),
            Rejection::MaxViewers => "max viewers reached".to_owned(),
            Rejection::StreamNotFound => "stream not found".to_owned(),
        }
    }
}

} // verus!
