//! The frame-ingestion path: hands one publisher frame to a stream's channel.

use crate::channel::receiver_count;
use crate::channel::send;
use crate::channel::upgrade;
use bytes::Bytes;
use tokio::sync::broadcast::Sender;
use tokio::sync::broadcast::WeakSender;
use vstd::prelude::*;

verus! {

/// Whether a frame is worth handing to a channel that has `receivers`
/// receiving handles: with none, nobody could ever read it.
pub fn has_audience(receivers: usize) -> (worth_sending: bool)
    ensures
        worth_sending == (receivers > 0),
{
    receivers != 0
}

/// Forwards one frame to every viewer currently attached to the channel.
/// Never blocks and never fails: with no viewer attached the frame is
/// discarded, and a viewer that is too slow loses frames instead of holding
/// the publisher back.
pub fn relay_frame(tx: &Sender<Bytes>, data: Bytes) {
    if !has_audience(receiver_count(tx)) {
        return ;
    }
    let _ = send(tx, data);
}

/// Forwards one frame through a publisher's handle, as `relay_frame` does.
/// Once the stream has been removed from the registry its channel is closed,
/// the handle leads nowhere and the frame is discarded.
pub fn relay_through(handle: &WeakSender<Bytes>, data: Bytes) {
    match upgrade(handle) {
        Some(tx) => relay_frame(&tx, data),
        None => {},
    }
}

} // verus!
