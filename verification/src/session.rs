//! A stream session: the live state of one publisher, made of the publishing
//! side of its broadcast channel and the count of viewers attached to it.

use crate::admission::release;
use crate::admission::reserve;
use crate::admission::Reservation;
use crate::channel::channel_behind;
use crate::channel::channel_of;
use crate::channel::downgrade;
use crate::channel::open_channel;
use crate::channel::retained_frames;
use crate::channel::subscribe;
use crate::channel::BROADCAST_CAPACITY;
use bytes::Bytes;
use rand::rngs::ThreadRng;
use std::sync::atomic::AtomicUsize;
use std::sync::Arc;
use tokio::sync::broadcast::Receiver;
use tokio::sync::broadcast::Sender;
use tokio::sync::broadcast::WeakSender;
use vstd::prelude::*;

verus! {

/// Names an active stream. Chosen by the publisher or generated here.
pub type StreamId = String;

/// Number of characters in a generated stream id.
pub const GENERATED_ID_LEN: usize = 8;

/// `rand::rngs::ThreadRng`, the calling thread's random number generator.
/// Opaque here.
#[verifier::external_type_specification]
#[verifier::external_body]
pub struct ExThreadRng(rand::rngs::ThreadRng);

/// `rand::thread_rng`: a handle on the calling thread's generator. It takes
/// no input; it fails only where the system cannot seed a generator.
pub assume_specification[ rand::thread_rng ]() -> ThreadRng;

/// An ASCII letter or digit.
pub open spec fn is_alphanumeric(c: char) -> bool {
    ||| 'A' <= c <= 'Z'
    ||| 'a' <= c <= 'z'
    ||| '0' <= c <= '9'
}

/// Whether every character is an ASCII letter or digit.
pub open spec fn is_drawn(chars: Seq<char>) -> bool {
    forall|i: int| 0 <= i < chars.len() ==> is_alphanumeric(#[trigger] chars[i])
}

/// What every generated stream id looks like: eight ASCII letters or digits.
pub open spec fn is_generated_id(id: Seq<char>) -> bool {
    &&& id.len() == GENERATED_ID_LEN
    &&& is_drawn(id)
}

/// Draws one value from `rand::distributions::Alphanumeric`, which picks a
/// byte out of `A-Z`, `a-z` and `0-9`. Which one is left to chance.
#[verifier::external_body]
fn sample_alphanumeric(rng: &mut ThreadRng) -> (c: char)
    ensures
        is_alphanumeric(c),
{
    char::from(rand::Rng::sample::<u8, _>(rng, rand::distributions::Alphanumeric))
}

/// Calls `String::push`, which appends one character.
#[verifier::external_body]
fn push_char(s: &mut String, c: char)
    ensures
        final(s)@ == old(s)@.push(c),
{
    s.push(c)
}

/// Draws `count` characters at random, each an ASCII letter or digit, and
/// appends them to `draws` in the order drawn.
pub(crate) fn draw(draws: &mut Vec<char>, count: usize)
    ensures
        final(draws)@.len() == old(draws)@.len() + count,
        final(draws)@.take(old(draws)@.len() as int) == old(draws)@,
        forall|i: int|
            old(draws)@.len() <= i < final(draws)@.len() ==> is_alphanumeric(
                #[trigger] final(draws)@[i],
            ),
{
    let mut rng = rand::thread_rng();
    let mut n: usize = 0;
    while n < count
        invariant
            n <= count,
            draws@.len() == old(draws)@.len() + n,
            draws@.take(old(draws)@.len() as int) == old(draws)@,
            forall|i: int|
                old(draws)@.len() <= i < draws@.len() ==> is_alphanumeric(#[trigger] draws@[i]),
        decreases count - n,
    {
        let c = sample_alphanumeric(&mut rng);
        draws.push(c);
        n += 1;
    }
}

/// The id that a sequence of draws spells: its characters, in the order
/// drawn. Equal draws give equal ids.
pub fn id_of_draws(draws: &Vec<char>) -> (id: StreamId)
    ensures
        id@ == draws@,
{
    let mut id = String::new();
    let mut i: usize = 0;
    while i < draws.len()
        invariant
            i <= draws@.len(),
            id@ == draws@.take(i as int),
        decreases draws@.len() - i,
    {
        push_char(&mut id, draws[i]);
        assert(draws@.take(i as int).push(draws@[i as int]) =~= draws@.take(i + 1));
        i += 1;
    }
    assert(draws@.take(draws@.len() as int) =~= draws@);
    id
}

/// Generates a random stream id: eight draws, spelled in order. Ids are not
/// checked against the streams that exist: the registry keeps keys unique.
pub fn generate_stream_id() -> (id: StreamId)
    ensures
        is_generated_id(id@),
{
    let mut draws: Vec<char> = Vec::new();
    draw(&mut draws, GENERATED_ID_LEN);
    id_of_draws(&draws)
}

/// The live state of one publisher.
pub struct StreamSession {
    /// Publishing side of the stream's broadcast channel.
    pub tx: Sender<Bytes>,
    /// Number of viewer slots taken on this stream.
    pub viewer_count: Arc<AtomicUsize>,
}

/// A viewer's hold on a stream: its receiving handle and the counter on which
/// it occupies one slot.
pub struct Subscription {
    /// Receives the frames sent after the viewer was admitted.
    pub rx: Receiver<Bytes>,
    /// The counter of the stream the viewer is attached to.
    pub viewer_count: Arc<AtomicUsize>,
}

impl StreamSession {
    /// Opens a session with a fresh channel of `BROADCAST_CAPACITY` frames and
    /// no viewer attached.
    pub fn new() -> (session: StreamSession)
        ensures
            retained_frames(session.tx) == BROADCAST_CAPACITY,
    {
        proof {
            vstd::arithmetic::power2::lemma2_to64();
            assert(vstd::arithmetic::power2::pow2(5) == BROADCAST_CAPACITY);
        }
        let tx = open_channel(BROADCAST_CAPACITY);
        StreamSession { tx, viewer_count: Arc::new(AtomicUsize::new(0)) }
    }

    /// A publisher's handle on this session's channel. It does not keep the
    /// channel open: the channel closes when the session is dropped.
    pub fn publisher_handle(&self) -> (handle: WeakSender<Bytes>)
        ensures
            channel_behind(handle) == self.tx,
    {
        downgrade(&self.tx)
    }

    /// Seats a viewer whose reservation on this session's counter was
    /// admitted: joins the channel at this moment and hands out the counter
    /// the slot is on. A refused reservation seats nobody.
    pub fn seat(&self, reservation: Reservation) -> (seat: Option<Subscription>)
        ensures
            seat is Some <==> reservation.admitted,
            seat matches Some(s) ==> s.attached_to(*self),
    {
        if reservation.admitted {
            let rx = subscribe(&self.tx);
            Some(Subscription { rx, viewer_count: Arc::clone(&self.viewer_count) })
        } else {
            None
        }
    }

    /// Tries to attach one viewer under a cap of `max_viewers`. The viewer
    /// counter decides: the viewer is admitted exactly when the counter, read
    /// and incremented in one atomic step, had not reached the cap, and a
    /// refused attempt leaves the counter as it found it. Under a cap of zero
    /// nobody is admitted.
    pub fn admit_viewer(&self, max_viewers: usize) -> (seat: Option<Subscription>)
        ensures
            seat matches Some(s) ==> s.attached_to(*self),
            max_viewers == 0 ==> seat is None,
    {
        let reservation = reserve(&self.viewer_count, max_viewers);
        self.seat(reservation)
    }
}

impl Subscription {
    /// Whether this is a hold on `session`: it reads the session's channel
    /// and occupies a slot on the session's counter.
    pub open spec fn attached_to(self, session: StreamSession) -> bool {
        &&& channel_of(self.rx) == session.tx
        &&& self.viewer_count == session.viewer_count
    }

    /// Ends the viewer's hold on the stream: drops the receiving handle and
    /// gives the slot back. Consuming the subscription makes a second release
    /// impossible.
    pub fn release(self) {
        release(&self.viewer_count);
    }
}

} // verus!
