//! Viewer admission: the reserve-then-verify protocol on a stream's viewer
//! counter, and what it guarantees under every interleaving.

use std::sync::atomic::AtomicUsize;
use std::sync::atomic::Ordering;
use vstd::prelude::*;

verus! {

/// Whether a viewer that observed `observed` slots already taken is admitted
/// under a cap of `max_viewers`.
pub open spec fn admits(observed: nat, max_viewers: nat) -> bool {
    observed < max_viewers
}

/// Decides admission from the counter value seen just before the increment.
pub fn verdict(observed: usize, max_viewers: usize) -> (admitted: bool)
    ensures
        admitted == admits(observed as nat, max_viewers as nat),
{
    observed < max_viewers
}

/// The outcome of one reservation attempt on a viewer counter.
#[derive(Clone, Copy, Debug, PartialEq, Eq)]
pub struct Reservation {
    /// The counter's value just before this attempt incremented it.
    pub observed: usize,
    /// Whether the slot is held. A refused attempt has already given it back.
    pub admitted: bool,
}

/// Tries to take one viewer slot: increments the counter, and gives the slot
/// back at once when the value seen before the increment had reached the cap.
pub fn reserve(counter: &AtomicUsize, max_viewers: usize) -> (r: Reservation)
    ensures
        r.admitted == admits(r.observed as nat, max_viewers as nat),
{
    let observed: usize = take_slot(counter);
    let admitted = verdict(observed, max_viewers);
    if !admitted {
        release(counter);
    }
    Reservation { observed, admitted }
}

/// Gives one viewer slot back. Called once for each admitted viewer when it
/// leaves, and by `reserve` itself to undo a refused attempt.
pub fn release(counter: &AtomicUsize) {
    counter.fetch_sub(1, Ordering::Relaxed);
}

/// Increments the counter and returns the value it held before.
fn take_slot(counter: &AtomicUsize) -> usize {
    counter.fetch_add(1, Ordering::Relaxed)
}

/// One atomic step on a stream's viewer counter. Every access the protocol
/// makes is a single read-modify-write, so whatever the tasks' timing, the
/// accesses to one counter happen in some order: an interleaving is a
/// sequence of these steps.
pub enum CounterStep {
    /// A viewer's increment. The value it sees decides its admission.
    Arrive,
    /// The decrement by which a refused viewer undoes its increment.
    RollBack,
    /// The decrement of an admitted viewer that leaves.
    Depart,
}

/// A viewer counter together with the viewers that have touched it. The
/// model counts in natural numbers: the counter itself would wrap only with
/// `usize::MAX` viewers in flight on one stream at once.
pub struct CounterModel {
    /// The number the counter holds.
    pub value: nat,
    /// Viewers that were admitted and have not left.
    pub admitted: nat,
    /// Viewers that were refused and have not undone their increment yet.
    pub refused: nat,
}

/// The counter of a freshly opened session.
pub open spec fn fresh() -> CounterModel {
    CounterModel { value: 0, admitted: 0, refused: 0 }
}

/// Whether some viewer can take `step` in state `m`: only a refused viewer
/// rolls back, and only an admitted one departs.
pub open spec fn enabled(m: CounterModel, step: CounterStep) -> bool {
    match step {
        CounterStep::Arrive => true,
        CounterStep::RollBack => m.refused > 0,
        CounterStep::Depart => m.admitted > 0,
    }
}

/// The state after `step`. A step that nobody can take changes nothing.
pub open spec fn after(m: CounterModel, step: CounterStep, max_viewers: nat) -> CounterModel {
    if !enabled(m, step) {
        m
    } else {
        match step {
            CounterStep::Arrive => if admits(m.value, max_viewers) {
                CounterModel { value: m.value + 1, admitted: m.admitted + 1, ..m }
            } else {
                CounterModel { value: m.value + 1, refused: m.refused + 1, ..m }
            },
            CounterStep::RollBack => CounterModel {
                value: (m.value - 1) as nat,
                refused: (m.refused - 1) as nat,
                ..m
            },
            CounterStep::Depart => CounterModel {
                value: (m.value - 1) as nat,
                admitted: (m.admitted - 1) as nat,
                ..m
            },
        }
    }
}

/// The state a fresh counter reaches through `steps`, taken in order.
pub open spec fn run(steps: Seq<CounterStep>, max_viewers: nat) -> CounterModel
    decreases steps.len(),
{
    if steps.len() == 0 {
        fresh()
    } else {
        after(run(steps.drop_last(), max_viewers), steps.last(), max_viewers)
    }
}

/// How many of `steps` are arrivals.
pub open spec fn arrivals(steps: Seq<CounterStep>) -> nat
    decreases steps.len(),
{
    if steps.len() == 0 {
        0
    } else if steps.last() is Arrive {
        arrivals(steps.drop_last()) + 1
    } else {
        arrivals(steps.drop_last())
    }
}

/// The counter always equals the viewers holding a slot plus the refused
/// viewers that still have to roll back, and the viewers holding a slot never
/// exceed the cap.
pub open spec fn accounted(m: CounterModel, max_viewers: nat) -> bool {
    &&& m.value == m.admitted + m.refused
    &&& m.admitted <= max_viewers
}

/// Every step keeps the counter accounted for.
pub proof fn lemma_step_keeps_account(m: CounterModel, step: CounterStep, max_viewers: nat)
    requires
        accounted(m, max_viewers),
    ensures
        accounted(after(m, step, max_viewers), max_viewers),
{
}

/// Under every interleaving of arrivals, roll-backs and departures, no more
/// than `max_viewers` viewers hold a slot at any time, and whenever no
/// refused attempt is still pending the counter itself is within
/// `0..=max_viewers` and equals the number of attached viewers.
pub proof fn lemma_cap_holds_under_every_interleaving(steps: Seq<CounterStep>, max_viewers: nat)
    ensures
        accounted(run(steps, max_viewers), max_viewers),
        run(steps, max_viewers).refused == 0 ==> run(steps, max_viewers).value == run(
            steps,
            max_viewers,
        ).admitted && run(steps, max_viewers).value <= max_viewers,
    decreases steps.len(),
{
    if steps.len() > 0 {
        lemma_cap_holds_under_every_interleaving(steps.drop_last(), max_viewers);
        lemma_step_keeps_account(run(steps.drop_last(), max_viewers), steps.last(), max_viewers);
    }
}

/// Whether none of `steps` is a departure.
pub open spec fn nobody_leaves(steps: Seq<CounterStep>) -> bool {
    forall|i: int| 0 <= i < steps.len() ==> !(#[trigger] steps[i] is Depart)
}

/// Where nobody leaves, nobody left before the last step either, and the
/// last step is no departure.
proof fn lemma_nobody_left_before(steps: Seq<CounterStep>)
    requires
        nobody_leaves(steps),
        steps.len() > 0,
    ensures
        nobody_leaves(steps.drop_last()),
        !(steps.last() is Depart),
{
    let before = steps.drop_last();
    assert forall|i: int| 0 <= i < before.len() implies !(#[trigger] before[i] is Depart) by {
        assert(before[i] == steps[i]);
    }
    assert(!(steps[steps.len() - 1] is Depart));
}

/// While no viewer leaves, admission fills the stream exactly to its cap:
/// whatever the order of arrivals and roll-backs, of `k` attempts the first
/// `max_viewers` to reach the counter are admitted and all others refused. In
/// particular, of `max_viewers + 1` concurrent attempts on a fresh stream
/// exactly one is refused.
pub proof fn lemma_concurrent_attempts_fill_to_cap(steps: Seq<CounterStep>, max_viewers: nat)
    requires
        nobody_leaves(steps),
    ensures
        run(steps, max_viewers).admitted == if arrivals(steps) <= max_viewers {
            arrivals(steps)
        } else {
            max_viewers
        },
    decreases steps.len(),
{
    if steps.len() > 0 {
        let before = steps.drop_last();
        lemma_nobody_left_before(steps);
        lemma_concurrent_attempts_fill_to_cap(before, max_viewers);
        lemma_cap_holds_under_every_interleaving(before, max_viewers);
        lemma_refusals_need_a_full_stream(before, max_viewers);
    }
}

/// While no viewer leaves, an attempt is refused only once the stream is full.
proof fn lemma_refusals_need_a_full_stream(steps: Seq<CounterStep>, max_viewers: nat)
    requires
        nobody_leaves(steps),
    ensures
        run(steps, max_viewers).admitted < max_viewers ==> run(steps, max_viewers).refused == 0,
        run(steps, max_viewers).admitted + run(steps, max_viewers).refused <= arrivals(steps),
    decreases steps.len(),
{
    if steps.len() > 0 {
        let before = steps.drop_last();
        lemma_nobody_left_before(steps);
        lemma_refusals_need_a_full_stream(before, max_viewers);
        lemma_cap_holds_under_every_interleaving(before, max_viewers);
    }
}

/// When an admitted viewer leaves, the counter drops by exactly one; and once
/// no refused attempt is pending, the next viewer to arrive is admitted.
pub proof fn lemma_departure_frees_one_slot(steps: Seq<CounterStep>, max_viewers: nat)
    requires
        run(steps, max_viewers).admitted > 0,
    ensures
        run(steps.push(CounterStep::Depart), max_viewers).value == run(steps, max_viewers).value
            - 1,
        run(steps.push(CounterStep::Depart), max_viewers).admitted == run(
            steps,
            max_viewers,
        ).admitted - 1,
        run(steps, max_viewers).refused == 0 ==> admits(
            run(steps.push(CounterStep::Depart), max_viewers).value,
            max_viewers,
        ),
{
    let left = steps.push(CounterStep::Depart);
    assert(left.drop_last() =~= steps);
    assert(left.last() == CounterStep::Depart);
    lemma_cap_holds_under_every_interleaving(steps, max_viewers);
}

} // verus!
