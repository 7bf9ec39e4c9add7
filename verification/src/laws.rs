//! What holds of every window, whatever is inserted and whenever.

use crate::window::{lemma_sum_concat, lemma_sum_update, lemma_sum_zeros, sum, zeros, Window};
use vstd::prelude::*;

verus! {

/// A sample: the instant it is inserted at, in nanoseconds on the time line,
/// and its amount.
pub struct Sample {
    /// When the sample is inserted.
    pub at: int,
    /// What it adds.
    pub amount: int,
}

/// Whether no sample comes before one that precedes it in `samples`.
pub open spec fn in_order(samples: Seq<Sample>) -> bool {
    forall|i: int, j: int| 0 <= i <= j < samples.len() ==> samples[i].at <= samples[j].at
}

/// The sum of the amounts of `samples`.
pub open spec fn amount_of(samples: Seq<Sample>) -> int
    decreases samples.len(),
{
    if samples.len() == 0 {
        0
    } else {
        amount_of(samples.drop_last()) + samples.last().amount
    }
}

/// The window after `samples` have been inserted one after another.
pub open spec fn feed(window: Window, samples: Seq<Sample>) -> Window
    decreases samples.len(),
{
    if samples.len() == 0 {
        window
    } else {
        feed(window, samples.drop_last()).insert(samples.last().at, samples.last().amount)
    }
}

/// Reading twice at one instant gives the same window, and so the same sum,
/// both times.
pub proof fn lemma_read_twice(window: Window, now: int)
    requires
        window.capacity() >= 1,
        window.admits(now),
    ensures
        window.rotate(now).admits(now),
        window.rotate(now).rotate(now) == window.rotate(now),
        window.rotate(now).rotate(now).total() == window.rotate(now).total(),
{
    let once = window.rotate(now);
    window.lemma_rotate_shape(now);
    if once.slot() > 0 {
        let gap = now - once.anchor(now);
        vstd::arithmetic::div_mod::lemma_basic_div(gap, once.slot() as int);
        assert(once.lag(now) == 0);
        assert(zeros(0) + once.buckets.take(once.capacity() as int) =~= once.buckets);
        assert(once.anchor(now) + 0 * once.slot() == once.anchor(now));
    }
}

/// After a gap as wide as the window or wider nothing of the old samples is
/// left.
pub proof fn lemma_all_expired(window: Window, now: int)
    requires
        window.capacity() >= 1,
        window.admits(now),
        now - window.anchor(now) >= window.span,
    ensures
        window.rotate(now).buckets == zeros(window.capacity()),
        window.rotate(now).total() == 0,
{
    let slot = window.slot() as int;
    let capacity = window.capacity() as int;
    lemma_sum_zeros(window.capacity());
    if slot > 0 {
        let gap = now - window.anchor(now);
        vstd::arithmetic::div_mod::lemma_fundamental_div_mod(window.span as int, capacity);
        vstd::arithmetic::div_mod::lemma_mod_bound(window.span as int, capacity);
        assert(gap / slot >= capacity) by (nonlinear_arith)
            requires
                gap >= capacity * slot,
                slot > 0,
        ;
        if window.lag(now) == capacity {
            assert(window.buckets.take(0) =~= Seq::<int>::empty());
            assert(zeros(capacity as nat) + window.buckets.take(0) =~= zeros(capacity as nat));
        }
    }
}

/// Whether `window` is what a fresh window of the shape of `fresh` becomes
/// while it keeps every sample of a run that began at `first` and has come
/// to `last`: the newest bucket starts a whole number of slots after `first`,
/// no bucket older than the run holds anything, and all buckets together
/// hold `total`.
spec fn keeps(window: Window, fresh: Window, first: int, last: int, total: int) -> bool {
    let slot = fresh.slot() as int;
    let turns = (last - first) / slot;
    &&& window.span == fresh.span
    &&& window.capacity() == fresh.capacity()
    &&& window.front == Some(first + turns * slot)
    &&& forall|i: int| turns < i < window.capacity() ==> window.buckets[i] == 0
    &&& window.total() == total
}

/// The slots between `first` and `now` are those up to the newest bucket and
/// those from there on; they are fewer than `capacity` while `now` is within
/// `capacity` slots of `first`.
proof fn lemma_turns_add_up(first: int, last: int, now: int, slot: int, capacity: int)
    requires
        slot > 0,
        first <= last <= now,
        now - first < capacity * slot,
    ensures
        0 <= (last - first) / slot,
        0 <= (now - (first + ((last - first) / slot) * slot)) / slot,
        (last - first) / slot + (now - (first + ((last - first) / slot) * slot)) / slot == (now
            - first) / slot,
        (now - first) / slot < capacity,
        first + ((last - first) / slot) * slot <= last,
{
    let turns = (last - first) / slot;
    let gap = now - (first + turns * slot);
    let lag = gap / slot;
    vstd::arithmetic::div_mod::lemma_fundamental_div_mod(last - first, slot);
    vstd::arithmetic::div_mod::lemma_mod_bound(last - first, slot);
    vstd::arithmetic::div_mod::lemma_div_pos_is_pos(last - first, slot);
    vstd::arithmetic::mul::lemma_mul_is_commutative(slot, turns);
    assert(gap >= 0);
    vstd::arithmetic::div_mod::lemma_fundamental_div_mod(gap, slot);
    vstd::arithmetic::div_mod::lemma_mod_bound(gap, slot);
    vstd::arithmetic::div_mod::lemma_div_pos_is_pos(gap, slot);
    vstd::arithmetic::mul::lemma_mul_is_commutative(slot, lag);
    assert((lag + turns) * slot == lag * slot + turns * slot) by (nonlinear_arith);
    vstd::arithmetic::div_mod::lemma_fundamental_div_mod_converse(
        now - first,
        slot,
        lag + turns,
        gap % slot,
    );
    assert((now - first) / slot < capacity) by (nonlinear_arith)
        requires
            now - first < capacity * slot,
            slot > 0,
    ;
}

/// A sequence of zeros only adds up to zero.
proof fn lemma_sum_nothing(s: Seq<int>)
    requires
        forall|i: int| 0 <= i < s.len() ==> s[i] == 0,
    ensures
        sum(s) == 0,
{
    assert(s =~= zeros(s.len()));
    lemma_sum_zeros(s.len());
}

/// Turning a window within the run it keeps loses nothing.
proof fn lemma_rotate_keeps(window: Window, fresh: Window, first: int, last: int, total: int, now: int)
    requires
        keeps(window, fresh, first, last, total),
        fresh.capacity() >= 1,
        first <= last <= now,
        now - first < fresh.capacity() * fresh.slot(),
    ensures
        fresh.slot() > 0,
        window.admits(now),
        keeps(window.rotate(now), fresh, first, now, total),
{
    let slot = fresh.slot() as int;
    let capacity = fresh.capacity() as int;
    assert(slot > 0) by (nonlinear_arith)
        requires
            0 <= now - first < capacity * slot,
            capacity >= 1,
    ;
    assert(window.slot() == fresh.slot());
    lemma_turns_add_up(first, last, now, slot, capacity);
    let turns = (last - first) / slot;
    let lag = window.lag(now);
    let kept = window.buckets.take(capacity - lag);
    let lost = window.buckets.skip(capacity - lag);
    assert(window.buckets =~= kept + lost);
    lemma_sum_concat(kept, lost);
    lemma_sum_nothing(lost);
    lemma_sum_concat(zeros(lag as nat), kept);
    lemma_sum_zeros(lag as nat);
    assert((turns + lag) * slot == turns * slot + lag * slot) by (nonlinear_arith);
}

/// Inserting a sample within the run a window keeps adds its amount and loses
/// nothing.
proof fn lemma_insert_keeps(window: Window, fresh: Window, first: int, last: int, total: int, sample: Sample)
    requires
        keeps(window, fresh, first, last, total),
        fresh.capacity() >= 1,
        first <= last <= sample.at,
        sample.at - first < fresh.capacity() * fresh.slot(),
    ensures
        keeps(window.insert(sample.at, sample.amount), fresh, first, sample.at, total + sample.amount),
{
    lemma_rotate_keeps(window, fresh, first, last, total, sample.at);
    let at = window.rotate(sample.at);
    lemma_turns_add_up(first, last, sample.at, fresh.slot() as int, fresh.capacity() as int);
    lemma_sum_update(at.buckets, 0, at.buckets[0] + sample.amount);
}

/// A fresh window keeps every sample of a run that stays within as many
/// slots as it has buckets.
proof fn lemma_feed_keeps(fresh: Window, samples: Seq<Sample>)
    requires
        fresh == Window::fresh(fresh.span, fresh.capacity()),
        fresh.capacity() >= 1,
        samples.len() >= 1,
        in_order(samples),
        samples.last().at - samples[0].at < fresh.capacity() * fresh.slot(),
    ensures
        keeps(feed(fresh, samples), fresh, samples[0].at, samples.last().at, amount_of(samples)),
    decreases samples.len(),
{
    let slot = fresh.slot() as int;
    let capacity = fresh.capacity() as int;
    let first = samples[0].at;
    let sample = samples.last();
    let earlier = samples.drop_last();
    assert(slot > 0) by (nonlinear_arith)
        requires
            0 <= sample.at - first < capacity * slot,
            capacity >= 1,
    ;
    if samples.len() == 1 {
        assert(feed(fresh, earlier) == fresh);
        assert(amount_of(earlier) == 0);
        vstd::arithmetic::div_mod::lemma_basic_div(0, slot);
        let at = fresh.rotate(first);
        assert(at.buckets =~= zeros(fresh.capacity()));
        lemma_sum_zeros(fresh.capacity());
        lemma_sum_update(at.buckets, 0, at.buckets[0] + sample.amount);
        assert(first + 0 * slot == first);
    } else {
        assert(earlier[0] == samples[0]);
        assert(earlier.last() == samples[samples.len() - 2]);
        lemma_feed_keeps(fresh, earlier);
        lemma_insert_keeps(
            feed(fresh, earlier),
            fresh,
            first,
            earlier.last().at,
            amount_of(earlier),
            sample,
        );
    }
}

/// The part of a window of width `span` that `capacity` buckets cover. A
/// bucket is a whole number of nanoseconds wide, so where `span` is no
/// multiple of `capacity` the buckets end short of the window.
pub open spec fn covered(span: nat, capacity: nat) -> int {
    span - span % capacity
}

/// A window gives back the exact sum of what was inserted, whatever the
/// number of its buckets, as long as the reading comes while the first sample
/// is within the part of the window that the buckets cover: no sample has
/// left the window by then.
pub proof fn lemma_sum_conserved(span: nat, capacity: nat, samples: Seq<Sample>, now: int)
    requires
        capacity >= 1,
        in_order(samples),
        samples.len() > 0 ==> samples.last().at <= now && now - samples[0].at < covered(
            span,
            capacity,
        ),
    ensures
        feed(Window::fresh(span, capacity), samples).admits(now),
        feed(Window::fresh(span, capacity), samples).rotate(now).total() == amount_of(samples),
{
    let fresh = Window::fresh(span, capacity);
    vstd::arithmetic::div_mod::lemma_fundamental_div_mod(span as int, capacity as int);
    if samples.len() == 0 {
        lemma_sum_zeros(capacity);
        if fresh.slot() > 0 {
            vstd::arithmetic::div_mod::lemma_basic_div(0, fresh.slot() as int);
            assert(fresh.rotate(now).buckets =~= zeros(capacity));
        }
    } else {
        assert(samples.last().at - samples[0].at < capacity * fresh.slot());
        lemma_feed_keeps(fresh, samples);
        lemma_rotate_keeps(
            feed(fresh, samples),
            fresh,
            samples[0].at,
            samples.last().at,
            amount_of(samples),
            now,
        );
    }
}

/// The sum that a window gives back does not depend on the number of its
/// buckets, as long as with either number the reading comes while the first
/// sample is within the part of the window that the buckets cover.
pub proof fn lemma_capacity_invariant(
    span: nat,
    capacity: nat,
    other: nat,
    samples: Seq<Sample>,
    now: int,
)
    requires
        capacity >= 1,
        other >= 1,
        in_order(samples),
        samples.len() > 0 ==> samples.last().at <= now,
        samples.len() > 0 ==> now - samples[0].at < covered(span, capacity),
        samples.len() > 0 ==> now - samples[0].at < covered(span, other),
    ensures
        feed(Window::fresh(span, capacity), samples).rotate(now).total() == feed(
            Window::fresh(span, other),
            samples,
        ).rotate(now).total(),
{
    lemma_sum_conserved(span, capacity, samples, now);
    lemma_sum_conserved(span, other, samples, now);
}

} // verus!
