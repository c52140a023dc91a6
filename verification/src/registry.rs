//! The session registry: which streams exist, and the session of each. An
//! entry's presence is what it means for a stream to exist.
//!
//! The registry is a plain value. Whoever shares it between connections wraps
//! it in a lock, holds the lock exclusively around `register` and `unregister`
//! and shared around `lookup` and `attach`, and never across a wait.

use crate::channel::channel_behind;
use crate::channel::retained_frames;
use crate::channel::BROADCAST_CAPACITY;
use crate::rejection::Rejection;
use crate::session::draw;
use crate::session::generate_stream_id;
use crate::session::id_of_draws;
use crate::session::is_alphanumeric;
use crate::session::is_drawn;
use crate::session::StreamId;
use crate::session::GENERATED_ID_LEN;
use crate::session::StreamSession;
use crate::session::Subscription;
use crate::transport::same_text;
use bytes::Bytes;
use tokio::sync::broadcast::WeakSender;
use vstd::prelude::*;

verus! {

/// Whether a registry that holds `count` streams under a cap of `max_streams`
/// takes one more.
pub open spec fn admits_stream(count: nat, max_streams: nat) -> bool {
    count < max_streams
}

/// The ids that exist after a request to register `id`, given the ids that
/// existed before. A refused request changes nothing.
pub open spec fn after_register(
    streams: Set<Seq<char>>,
    max_streams: nat,
    id: Seq<char>,
) -> Set<Seq<char>> {
    if admits_stream(streams.len(), max_streams) {
        streams.insert(id)
    } else {
        streams
    }
}

/// How often a generated id that is taken is drawn afresh before it is
/// lengthened instead.
pub const REDRAWS: usize = 16;

/// What an id that the registry made up looks like among `taken` ids: ASCII
/// letters and digits, eight of them, or more where eight-character ids
/// proved taken, by at most one for each id that is taken.
pub open spec fn is_made_up_id(id: Seq<char>, taken: Set<Seq<char>>) -> bool {
    &&& is_drawn(id)
    &&& GENERATED_ID_LEN <= id.len() <= GENERATED_ID_LEN + taken.len()
}

/// Whether `id` is a fitting answer to a registration that asked for
/// `requested` while the ids in `taken` were registered: the requested id
/// itself if it is free, and else an id that the registry made up. The
/// answer is never a taken id.
pub open spec fn names_stream(
    requested: Option<StreamId>,
    taken: Set<Seq<char>>,
    id: Seq<char>,
) -> bool {
    &&& !taken.contains(id)
    &&& match requested {
        Some(wanted) => if taken.contains(wanted@) {
            is_made_up_id(id, taken)
        } else {
            id == wanted@
        },
        None => is_made_up_id(id, taken),
    }
}

/// One stream: its id and its session.
struct Entry {
    id: StreamId,
    session: StreamSession,
}

/// What an admitted publisher is handed.
pub struct Registration {
    /// The id the stream is registered under.
    pub stream_id: StreamId,
    /// The publisher's handle on the new session's channel. It does not keep
    /// the channel open: unregistering the stream closes it.
    pub tx: WeakSender<Bytes>,
}

/// The mapping from stream id to session, bounded in size. Streams are kept
/// in a vector and found by scanning it: for string keys the standard hash
/// map gives the verifier no model to reason with.
pub struct Registry {
    entries: Vec<Entry>,
    max_streams: usize,
    max_viewers_per_stream: usize,
}

spec fn keys(entries: Seq<Entry>) -> Seq<Seq<char>> {
    Seq::new(entries.len(), |i: int| entries[i].id@)
}

spec fn model(entries: Seq<Entry>) -> Map<Seq<char>, StreamSession> {
    Map::new(
        |id: Seq<char>| keys(entries).contains(id),
        |id: Seq<char>| entries[keys(entries).index_of(id)].session,
    )
}

proof fn lemma_key_index(entries: Seq<Entry>, i: int)
    requires
        keys(entries).no_duplicates(),
        0 <= i < entries.len(),
    ensures
        keys(entries).contains(entries[i].id@),
        keys(entries).index_of(entries[i].id@) == i,
        model(entries).contains_key(entries[i].id@),
        model(entries)[entries[i].id@] == entries[i].session,
{
    assert(keys(entries)[i] == entries[i].id@);
}

proof fn lemma_model_count(entries: Seq<Entry>)
    requires
        keys(entries).no_duplicates(),
    ensures
        model(entries).dom().finite(),
        model(entries).dom().len() == entries.len(),
{
    broadcast use vstd::seq_lib::seq_to_set_is_finite;

    keys(entries).unique_seq_to_set();
    assert(model(entries).dom() =~= keys(entries).to_set());
}

proof fn lemma_model_push(entries: Seq<Entry>, entry: Entry)
    requires
        keys(entries).no_duplicates(),
        !keys(entries).contains(entry.id@),
    ensures
        keys(entries.push(entry)).no_duplicates(),
        model(entries.push(entry)) == model(entries).insert(entry.id@, entry.session),
{
    let grown = entries.push(entry);
    assert(keys(grown) =~= keys(entries).push(entry.id@));
    assert forall|i: int, j: int|
        0 <= i < keys(grown).len() && 0 <= j < keys(grown).len() && i != j implies keys(grown)[i]
        != keys(grown)[j] by {
        if i < entries.len() {
            assert(keys(entries)[i] == keys(grown)[i]);
        }
        if j < entries.len() {
            assert(keys(entries)[j] == keys(grown)[j]);
        }
    }
    assert forall|id: Seq<char>|
        model(grown).contains_key(id) <==> #[trigger] model(entries).insert(
            entry.id@,
            entry.session,
        ).contains_key(id) by {
        if keys(grown).contains(id) {
            let i = keys(grown).index_of(id);
            if i < entries.len() {
                assert(keys(entries)[i] == id);
            }
        }
        if keys(entries).contains(id) {
            let i = keys(entries).index_of(id);
            assert(keys(grown)[i] == id);
        }
        if id == entry.id@ {
            assert(keys(grown)[entries.len() as int] == id);
        }
    }
    assert forall|id: Seq<char>| #[trigger] model(grown).contains_key(id) implies model(grown)[id]
        == model(entries).insert(entry.id@, entry.session)[id] by {
        let i = keys(grown).index_of(id);
        lemma_key_index(grown, i);
        if i < entries.len() {
            lemma_key_index(entries, i);
        }
    }
    assert(model(grown) =~= model(entries).insert(entry.id@, entry.session));
}

proof fn lemma_model_remove(entries: Seq<Entry>, at: int)
    requires
        keys(entries).no_duplicates(),
        0 <= at < entries.len(),
    ensures
        keys(entries.remove(at)).no_duplicates(),
        !keys(entries.remove(at)).contains(entries[at].id@),
        model(entries.remove(at)) == model(entries).remove(entries[at].id@),
{
    let rest = entries.remove(at);
    let gone = entries[at].id@;
    assert(keys(rest) =~= keys(entries).remove(at));
    assert forall|i: int| 0 <= i < rest.len() implies #[trigger] keys(rest)[i] == keys(entries)[if i
        < at {
        i
    } else {
        i + 1
    }] by {}
    assert forall|i: int, j: int|
        0 <= i < keys(rest).len() && 0 <= j < keys(rest).len() && i != j implies keys(rest)[i]
        != keys(rest)[j] by {
        let a = if i < at { i } else { i + 1 };
        let b = if j < at { j } else { j + 1 };
        assert(keys(rest)[i] == keys(entries)[a]);
        assert(keys(rest)[j] == keys(entries)[b]);
    }
    assert(!keys(rest).contains(gone)) by {
        if keys(rest).contains(gone) {
            let i = keys(rest).index_of(gone);
            let a = if i < at { i } else { i + 1 };
            assert(keys(rest)[i] == keys(entries)[a]);
            assert(keys(entries)[at] == gone);
        }
    }
    assert forall|id: Seq<char>|
        model(rest).contains_key(id) <==> #[trigger] model(entries).remove(gone).contains_key(
            id,
        ) by {
        if keys(rest).contains(id) {
            let i = keys(rest).index_of(id);
            let a = if i < at { i } else { i + 1 };
            assert(keys(rest)[i] == keys(entries)[a]);
        }
        if keys(entries).contains(id) && id != gone {
            let a = keys(entries).index_of(id);
            assert(keys(entries)[at] == gone);
            let i = if a < at { a } else { a - 1 };
            assert(keys(rest)[i] == keys(entries)[a]);
        }
    }
    assert forall|id: Seq<char>| #[trigger] model(rest).contains_key(id) implies model(rest)[id]
        == model(entries).remove(gone)[id] by {
        let i = keys(rest).index_of(id);
        let a = if i < at { i } else { i + 1 };
        assert(keys(rest)[i] == keys(entries)[a]);
        lemma_key_index(rest, i);
        lemma_key_index(entries, a);
    }
    assert(model(rest) =~= model(entries).remove(gone));
}

/// The first `k` of the prefixes of `draws` that have `base` characters or
/// more.
spec fn prefixes(draws: Seq<char>, base: int, k: int) -> Set<Seq<char>>
    decreases k,
{
    if k <= 0 {
        Set::empty()
    } else {
        prefixes(draws, base, k - 1).insert(draws.take(base + k - 1))
    }
}

/// Prefixes of different lengths are different ids: `k` of them that are all
/// taken are `k` of the taken ids.
proof fn lemma_taken_prefixes(ids: Seq<Seq<char>>, draws: Seq<char>, base: int, k: int)
    requires
        0 <= base,
        0 <= k,
        base + k <= draws.len() + 1,
        forall|j: int| 0 <= j < k ==> ids.contains(#[trigger] draws.take(base + j)),
    ensures
        prefixes(draws, base, k).finite(),
        prefixes(draws, base, k).len() == k,
        forall|id: Seq<char>| #[trigger]
            prefixes(draws, base, k).contains(id) ==> id.len() < base + k && ids.to_set().contains(
                id,
            ),
    decreases k,
{
    if k > 0 {
        lemma_taken_prefixes(ids, draws, base, k - 1);
        let longest = draws.take(base + k - 1);
        assert(ids.contains(draws.take(base + (k - 1))));
        assert(longest.len() == base + k - 1);
        assert(!prefixes(draws, base, k - 1).contains(longest));
    }
}

/// No more prefixes of one sequence of draws can be taken than there are
/// ids.
proof fn lemma_taken_prefixes_are_few(ids: Seq<Seq<char>>, draws: Seq<char>, base: int, k: int)
    requires
        ids.no_duplicates(),
        0 <= base,
        0 <= k,
        base + k <= draws.len() + 1,
        forall|j: int| 0 <= j < k ==> ids.contains(#[trigger] draws.take(base + j)),
    ensures
        k <= ids.len(),
{
    broadcast use vstd::seq_lib::seq_to_set_is_finite;

    lemma_taken_prefixes(ids, draws, base, k);
    ids.unique_seq_to_set();
    vstd::set_lib::lemma_len_subset(prefixes(draws, base, k), ids.to_set());
}

impl View for Registry {
    type V = Map<Seq<char>, StreamSession>;

    /// The streams that exist, each with its session.
    closed spec fn view(&self) -> Map<Seq<char>, StreamSession> {
        model(self.entries@)
    }
}

impl Registry {
    /// No id occurs twice, and the registry holds no more streams than it may.
    /// Every registry that executable code can hold is well formed.
    #[verifier::type_invariant]
    pub closed spec fn wf(&self) -> bool {
        &&& keys(self.entries@).no_duplicates()
        &&& self.entries@.len() <= self.max_streams
    }

    /// The cap on the number of streams.
    pub closed spec fn stream_cap(&self) -> nat {
        self.max_streams as nat
    }

    /// The cap on the number of viewers of each stream.
    pub closed spec fn viewer_cap(&self) -> nat {
        self.max_viewers_per_stream as nat
    }

    /// A well-formed registry is finite and within its cap.
    pub proof fn lemma_within_cap(&self)
        requires
            self.wf(),
        ensures
            self@.dom().finite(),
            self@.dom().len() <= self.stream_cap(),
    {
        lemma_model_count(self.entries@);
    }

    /// An empty registry with the given caps.
    pub fn new(max_streams: usize, max_viewers_per_stream: usize) -> (registry: Registry)
        ensures
            registry.wf(),
            registry@ == Map::<Seq<char>, StreamSession>::empty(),
            registry.stream_cap() == max_streams,
            registry.viewer_cap() == max_viewers_per_stream,
    {
        let registry = Registry { entries: Vec::new(), max_streams, max_viewers_per_stream };
        assert(registry@ =~= Map::<Seq<char>, StreamSession>::empty());
        registry
    }

    /// The cap on the number of streams.
    pub fn max_streams(&self) -> (cap: usize)
        ensures
            cap == self.stream_cap(),
    {
        self.max_streams
    }

    /// The cap on the number of viewers of each stream.
    pub fn max_viewers_per_stream(&self) -> (cap: usize)
        ensures
            cap == self.viewer_cap(),
    {
        self.max_viewers_per_stream
    }

    /// The number of streams that exist.
    pub fn len(&self) -> (count: usize)
        ensures
            count == self@.dom().len(),
    {
        proof {
            use_type_invariant(self);
            lemma_model_count(self.entries@);
        }
        self.entries.len()
    }

    /// Where the entry of `id` stands, if the stream exists.
    fn position(&self, id: &str) -> (at: Option<usize>)
        ensures
            match at {
                Some(i) => i < self.entries@.len() && self.entries@[i as int].id@ == id@,
                None => !keys(self.entries@).contains(id@),
            },
    {
        let mut i: usize = 0;
        while i < self.entries.len()
            invariant
                i <= self.entries@.len(),
                forall|j: int| 0 <= j < i ==> (#[trigger] keys(self.entries@)[j]) != id@,
            decreases self.entries@.len() - i,
        {
            if same_text(self.entries[i].id.as_str(), id) {
                return Some(i);
            }
            assert(keys(self.entries@)[i as int] == self.entries@[i as int].id@);
            i += 1;
        }
        None
    }

    /// Whether a stream is registered under `id`.
    pub fn contains(&self, id: &str) -> (exists: bool)
        ensures
            exists == self@.contains_key(id@),
    {
        match self.position(id) {
            Some(i) => {
                proof {
                    use_type_invariant(self);
                    lemma_key_index(self.entries@, i as int);
                }
                true
            },
            None => false,
        }
    }

    /// The session registered under `id`. Reads only.
    pub fn lookup(&self, id: &str) -> (found: Option<&StreamSession>)
        ensures
            match found {
                Some(session) => self@.contains_key(id@) && *session == self@[id@],
                None => !self@.contains_key(id@),
            },
    {
        match self.position(id) {
            Some(i) => {
                proof {
                    use_type_invariant(self);
                    lemma_key_index(self.entries@, i as int);
                }
                Some(&self.entries[i].session)
            },
            None => None,
        }
    }

    /// An id that no registered stream has. A generated id that is taken is
    /// drawn afresh, up to `REDRAWS` times. Should every one of them be
    /// taken, one more is drawn and lengthened by a further draw at a time
    /// until it is free, which takes no more draws than there are streams.
    fn free_id(&self) -> (id: StreamId)
        ensures
            !self@.contains_key(id@),
            is_made_up_id(id@, self@.dom()),
    {
        proof {
            use_type_invariant(self);
            lemma_model_count(self.entries@);
        }
        let mut tries: usize = 0;
        while tries < REDRAWS
            invariant
                tries <= REDRAWS,
            decreases REDRAWS - tries,
        {
            let id = generate_stream_id();
            if self.position(id.as_str()).is_none() {
                return id;
            }
            tries += 1;
        }
        let mut draws: Vec<char> = Vec::new();
        draw(&mut draws, GENERATED_ID_LEN);
        let mut extra: usize = 0;
        loop
            invariant
                self.wf(),
                self@.dom().len() == self.entries@.len(),
                extra <= self.entries@.len(),
                draws@.len() == GENERATED_ID_LEN + extra,
                is_drawn(draws@),
                forall|j: int|
                    0 <= j < extra ==> keys(self.entries@).contains(
                        #[trigger] draws@.take(GENERATED_ID_LEN + j),
                    ),
            decreases self.entries@.len() - extra,
        {
            let id = id_of_draws(&draws);
            let at = self.position(id.as_str());
            if at.is_none() {
                return id;
            }
            proof {
                assert(keys(self.entries@)[at.unwrap() as int] == draws@);
                assert(draws@.take(GENERATED_ID_LEN + extra) =~= draws@);
                assert forall|j: int| 0 <= j < extra + 1 implies keys(self.entries@).contains(
                    #[trigger] draws@.take(GENERATED_ID_LEN + j),
                ) by {}
                lemma_taken_prefixes_are_few(
                    keys(self.entries@),
                    draws@,
                    GENERATED_ID_LEN as int,
                    extra + 1,
                );
            }
            let ghost shorter = draws@;
            draw(&mut draws, 1);
            proof {
                assert forall|j: int| 0 <= j <= extra implies keys(self.entries@).contains(
                    #[trigger] draws@.take(GENERATED_ID_LEN + j),
                ) by {
                    assert(draws@.take(GENERATED_ID_LEN + j) =~= shorter.take(
                        GENERATED_ID_LEN + j,
                    ));
                }
                assert forall|i: int| 0 <= i < draws@.len() implies is_alphanumeric(
                    #[trigger] draws@[i],
                ) by {
                    if i < shorter.len() {
                        assert(draws@[i] == shorter[i]);
                    }
                }
            }
            extra += 1;
        }
    }

    /// Registers a stream in one step: checks the number of streams against
    /// the cap and, if it is below, opens a new session. The session stands
    /// under the requested id if that id is free. A request that names no
    /// id, or an id that another stream holds, gets an id that the registry
    /// makes up, so that no stream is ever taken over. Every stream that was
    /// registered stays as it was, and a refused request changes nothing.
    pub fn register(&mut self, requested: Option<StreamId>) -> (outcome: Result<
        Registration,
        Rejection,
    >)
        ensures
            final(self).wf(),
            final(self).stream_cap() == old(self).stream_cap(),
            final(self).viewer_cap() == old(self).viewer_cap(),
            final(self)@.dom().finite(),
            final(self)@.dom().len() <= final(self).stream_cap(),
            outcome is Ok <==> admits_stream(old(self)@.dom().len(), old(self).stream_cap()),
            forall|id: Seq<char>| #[trigger]
                old(self)@.contains_key(id) ==> final(self)@.contains_key(id) && final(self)@[id]
                    == old(self)@[id],
            match outcome {
                Ok(registration) => {
                    &&& names_stream(requested, old(self)@.dom(), registration.stream_id@)
                    &&& !old(self)@.contains_key(registration.stream_id@)
                    &&& final(self)@.contains_key(registration.stream_id@)
                    &&& final(self)@ == old(self)@.insert(
                        registration.stream_id@,
                        final(self)@[registration.stream_id@],
                    )
                    &&& final(self)@.dom() == after_register(
                        old(self)@.dom(),
                        old(self).stream_cap(),
                        registration.stream_id@,
                    )
                    &&& channel_behind(registration.tx) == final(self)@[registration.stream_id@].tx
                    &&& retained_frames(final(self)@[registration.stream_id@].tx)
                        == BROADCAST_CAPACITY
                },
                Err(rejection) => {
                    &&& rejection == Rejection::MaxStreams
                    &&& final(self)@ == old(self)@
                },
            },
    {
        proof {
            use_type_invariant(&*self);
            lemma_model_count(self.entries@);
        }
        if self.entries.len() >= self.max_streams {
            return Err(Rejection::MaxStreams);
        }
        let stream_id = match requested {
            Some(wanted) => match self.position(wanted.as_str()) {
                None => wanted,
                Some(at) => {
                    assert(keys(self.entries@)[at as int] == wanted@);
                    self.free_id()
                },
            },
            None => self.free_id(),
        };
        assert(names_stream(requested, self@.dom(), stream_id@));
        let ghost before = self.entries@;
        let session = StreamSession::new();
        let tx = session.publisher_handle();
        let entry = Entry { id: stream_id.clone(), session };
        let mut entries: Vec<Entry> = Vec::new();
        core::mem::swap(&mut self.entries, &mut entries);
        proof {
            lemma_model_push(before, entry);
            lemma_key_index(before.push(entry), before.len() as int);
        }
        entries.push(entry);
        self.entries = entries;
        proof {
            lemma_model_count(self.entries@);
        }
        Ok(Registration { stream_id, tx })
    }

    /// Removes the stream registered under `id`, dropping its session. The
    /// session holds the only handle that keeps the stream's channel open,
    /// so removal closes the channel: viewers read what is still buffered
    /// and then see the end. Removing an id that does not exist changes
    /// nothing.
    pub fn unregister(&mut self, id: &str)
        ensures
            final(self).wf(),
            final(self).stream_cap() == old(self).stream_cap(),
            final(self).viewer_cap() == old(self).viewer_cap(),
            final(self)@ == old(self)@.remove(id@),
    {
        proof {
            use_type_invariant(&*self);
        }
        match self.position(id) {
            Some(i) => {
                let ghost before = self.entries@;
                let mut entries: Vec<Entry> = Vec::new();
                core::mem::swap(&mut self.entries, &mut entries);
                proof {
                    lemma_model_remove(before, i as int);
                }
                entries.remove(i);
                self.entries = entries;
            },
            None => {
                assert(self@ =~= self@.remove(id@));
            },
        }
    }

    /// Attaches one viewer to the stream registered under `id`. An unknown id
    /// is `StreamNotFound`. For a stream that exists the viewer counter
    /// decides, see `StreamSession::admit_viewer`: the outcome is a
    /// subscription on that stream's counter, or `MaxViewers`.
    pub fn attach(&self, id: &str) -> (outcome: Result<Subscription, Rejection>)
        ensures
            match outcome {
                Ok(seat) => self@.contains_key(id@) && seat.attached_to(self@[id@]),
                Err(rejection) => if self@.contains_key(id@) {
                    rejection == Rejection::MaxViewers
                } else {
                    rejection == Rejection::StreamNotFound
                },
            },
            self@.contains_key(id@) && self.viewer_cap() == 0 ==> outcome is Err,
    {
        match self.lookup(id) {
            None => Err(Rejection::StreamNotFound),
            Some(session) => match session.admit_viewer(self.max_viewers_per_stream) {
                Some(seat) => Ok(seat),
                None => Err(Rejection::MaxViewers),
            },
        }
    }
}

/// The ids that exist after requests to register each of `ids` in turn,
/// starting from an empty registry.
pub open spec fn after_registering(ids: Seq<Seq<char>>, max_streams: nat) -> Set<Seq<char>>
    decreases ids.len(),
{
    if ids.len() == 0 {
        Set::empty()
    } else {
        after_register(after_registering(ids.drop_last(), max_streams), max_streams, ids.last())
    }
}

/// After requests for distinct ids, the registry holds the first of them, as
/// many as the cap allows.
proof fn lemma_after_registering(ids: Seq<Seq<char>>, max_streams: nat)
    requires
        ids.no_duplicates(),
    ensures
        after_registering(ids, max_streams).finite(),
        ids.len() <= max_streams ==> after_registering(ids, max_streams) == ids.to_set(),
        ids.len() > max_streams ==> after_registering(ids, max_streams) == ids.take(
            max_streams as int,
        ).to_set(),
        after_registering(ids, max_streams).len() == if ids.len() <= max_streams {
            ids.len()
        } else {
            max_streams
        },
    decreases ids.len(),
{
    broadcast use vstd::seq_lib::seq_to_set_is_finite;

    if ids.len() == 0 {
        assert(ids.to_set() =~= Set::<Seq<char>>::empty());
    } else {
        let before = ids.drop_last();
        lemma_after_registering(before, max_streams);
        if before.len() < max_streams {
            assert(before.to_set().insert(ids.last()) =~= ids.to_set()) by {
                assert forall|id: Seq<char>| ids.to_set().contains(id) implies before.to_set().insert(
                    ids.last(),
                ).contains(id) by {
                    let i = choose|i: int| 0 <= i < ids.len() && ids[i] == id;
                    if i < before.len() {
                        assert(before[i] == id);
                    }
                }
                assert forall|id: Seq<char>|
                    before.to_set().insert(ids.last()).contains(id) implies ids.to_set().contains(
                    id,
                ) by {
                    if id == ids.last() {
                        assert(ids[ids.len() - 1] == id);
                    } else {
                        let i = choose|i: int| 0 <= i < before.len() && before[i] == id;
                        assert(ids[i] == id);
                    }
                }
            }
            ids.unique_seq_to_set();
        } else {
            let kept = ids.take(max_streams as int);
            if before.len() > max_streams {
                assert(before.take(max_streams as int) =~= kept);
            } else {
                assert(before =~= kept);
            }
            kept.unique_seq_to_set();
        }
    }
}

/// A registry fills exactly to its cap. `ids` are the ids that a run of
/// requests on an empty registry are given; they are distinct, since
/// `register` answers only ids that are free. With a cap of `max_streams`
/// the first `max_streams` requests are admitted and every later one is
/// refused, and after all of them each admitted stream is still there.
pub proof fn lemma_registry_fills_to_cap(ids: Seq<Seq<char>>, max_streams: nat)
    requires
        ids.no_duplicates(),
    ensures
        forall|i: int|
            0 <= i < ids.len() ==> (admits_stream(
                (#[trigger] after_registering(ids.take(i), max_streams)).len(),
                max_streams,
            ) <==> i < max_streams),
        forall|i: int|
            0 <= i < ids.len() && i < max_streams ==> after_registering(ids, max_streams).contains(
                #[trigger] ids[i],
            ),
{
    assert forall|i: int| 0 <= i < ids.len() implies (admits_stream(
        (#[trigger] after_registering(ids.take(i), max_streams)).len(),
        max_streams,
    ) <==> i < max_streams) by {
        lemma_after_registering(ids.take(i), max_streams);
    }
    lemma_after_registering(ids, max_streams);
    assert forall|i: int| 0 <= i < ids.len() && i < max_streams implies after_registering(
        ids,
        max_streams,
    ).contains(#[trigger] ids[i]) by {
        if ids.len() > max_streams {
            assert(ids.take(max_streams as int)[i] == ids[i]);
        }
    }
}

/// Once a stream is unregistered its id is unknown to the registry, and free:
/// the next request to register is admitted, and a request for that very id
/// is given it and makes it known again.
pub proof fn lemma_unregistered_id_is_free(
    registry: Registry,
    id: Seq<char>,
    wanted: StreamId,
    answer: Seq<char>,
)
    requires
        registry.wf(),
        registry@.contains_key(id),
        wanted@ == id,
        names_stream(Some(wanted), registry@.remove(id).dom(), answer),
    ensures
        !registry@.remove(id).contains_key(id),
        admits_stream(registry@.remove(id).dom().len(), registry.stream_cap()),
        answer == id,
        after_register(registry@.remove(id).dom(), registry.stream_cap(), answer).contains(id),
{
    registry.lemma_within_cap();
    assert(registry@.remove(id).dom() =~= registry@.dom().remove(id));
}

} // verus!
