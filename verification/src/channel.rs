//! The per-stream broadcast channel: a bounded, lossy fan-out of binary frames
//! with one publishing side and any number of independently positioned
//! receiving handles. The channel itself is `tokio::sync::broadcast`; this
//! module declares its handle types and the calls the relay makes on them.

use bytes::Bytes;
use tokio::sync::broadcast::Receiver;
use tokio::sync::broadcast::Sender;
use tokio::sync::broadcast::WeakSender;
use vstd::prelude::*;

verus! {

/// `bytes::Bytes`, a cheaply cloneable frame payload. Opaque here.
#[verifier::external_type_specification]
#[verifier::external_body]
pub struct ExBytes(bytes::Bytes);

/// `tokio::sync::broadcast::Sender`, the publishing handle of a channel.
/// Opaque here.
#[verifier::external_type_specification]
#[verifier::external_body]
#[verifier::reject_recursive_types(T)]
pub struct ExSender<T>(tokio::sync::broadcast::Sender<T>);

/// `tokio::sync::broadcast::WeakSender`, a publishing handle that does not
/// keep its channel open. Opaque here.
#[verifier::external_type_specification]
#[verifier::external_body]
#[verifier::reject_recursive_types(T)]
pub struct ExWeakSender<T>(tokio::sync::broadcast::WeakSender<T>);

/// `tokio::sync::broadcast::Receiver`, one viewer's cursor into a channel.
/// Opaque here.
#[verifier::external_type_specification]
#[verifier::external_body]
#[verifier::reject_recursive_types(T)]
pub struct ExReceiver<T>(tokio::sync::broadcast::Receiver<T>);

/// Number of frames a channel retains for viewers that have not read them yet.
pub const BROADCAST_CAPACITY: usize = 32;

/// Whether `n` is a power of two.
pub open spec fn is_power_of_two(n: nat) -> bool {
    exists|k: nat| #[trigger] vstd::arithmetic::power2::pow2(k) == n
}

/// How many frames a channel retains for receiving handles that have not read
/// them yet. It is fixed when the channel is made; a viewer that falls
/// further behind than this loses frames.
pub uninterp spec fn retained_frames(tx: Sender<Bytes>) -> nat;

/// Calls `tokio::sync::broadcast::channel` and keeps the publishing handle;
/// the receiving handle that comes with it is dropped, so the channel starts
/// without receivers. The call panics on a capacity of zero or above
/// `usize::MAX / 2`, which `requires` excludes. The channel rounds the
/// capacity up to a power of two and retains that many frames.
#[verifier::external_body]
pub(crate) fn open_channel(capacity: usize) -> (tx: Sender<Bytes>)
    requires
        0 < capacity <= usize::MAX / 2,
    ensures
        retained_frames(tx) >= capacity,
        is_power_of_two(capacity as nat) ==> retained_frames(tx) == capacity,
{
    tokio::sync::broadcast::channel(capacity).0
}

/// The channel that a receiving handle reads, named by its publishing handle.
/// A receiving handle stays on the channel it was made for.
pub uninterp spec fn channel_of(rx: Receiver<Bytes>) -> Sender<Bytes>;

/// The channel that a weak publishing handle points to, named by its
/// publishing handle. To the verifier a publishing handle stands for its
/// channel: it holds nothing but a shared pointer to it.
pub uninterp spec fn channel_behind(handle: WeakSender<Bytes>) -> Sender<Bytes>;

/// Calls `Sender::downgrade`: a handle on the same channel that does not
/// count among those that keep it open. A channel closes when its last
/// `Sender` is dropped, whatever weak handles remain.
#[verifier::external_body]
pub(crate) fn downgrade(tx: &Sender<Bytes>) -> (handle: WeakSender<Bytes>)
    ensures
        channel_behind(handle) == *tx,
{
    tx.downgrade()
}

/// Calls `WeakSender::upgrade`: a publishing handle on the channel behind
/// the weak one, or `None` once the channel's last `Sender` is gone. Which
/// of the two depends on what other tasks have dropped.
#[verifier::external_body]
pub(crate) fn upgrade(handle: &WeakSender<Bytes>) -> (tx: Option<Sender<Bytes>>)
    ensures
        tx matches Some(t) ==> t == channel_behind(*handle),
{
    handle.upgrade()
}

/// Calls `Sender::receiver_count`: how many receiving handles the channel has
/// at this moment. Other tasks add and drop handles, so nothing is claimed.
#[verifier::external_body]
pub(crate) fn receiver_count(tx: &Sender<Bytes>) -> usize {
    tx.receiver_count()
}

/// Calls `Sender::send` and keeps the success value. `Some(n)` says the frame
/// was stored for the `n` receiving handles that existed, and `send` succeeds
/// only when there is at least one; `None` says there was none and the frame
/// was dropped.
#[verifier::external_body]
pub(crate) fn send(tx: &Sender<Bytes>, frame: Bytes) -> (stored_for: Option<usize>)
    ensures
        stored_for matches Some(n) ==> n >= 1,
{
    tx.send(frame).ok()
}

/// Calls `Sender::subscribe`: a new receiving handle on this channel, which
/// sees only frames sent after the call. Where it starts depends on what has
/// been sent so far, so that is not claimed. The call panics once a channel
/// has `usize::MAX / 4` receiving handles.
#[verifier::external_body]
pub(crate) fn subscribe(tx: &Sender<Bytes>) -> (rx: Receiver<Bytes>)
    ensures
        channel_of(rx) == *tx,
{
    tx.subscribe()
}

} // verus!
