//! The running average: a ring of buckets that turns as time passes.

use crate::measurement::Measurement;
use crate::span::{duration_nanos, duration_of, nanos_of};
use crate::time::TimeInstant;
use crate::value::Accumulate;
use crate::window::{sum, zeros, Window};
use std::collections::VecDeque;
use std::time::Duration;
use vstd::prelude::*;

verus! {

/// The numbers that the values in `s` stand for.
pub open spec fn amounts<V: Accumulate>(s: Seq<V>) -> Seq<int> {
    s.map_values(|v: V| v.amount())
}

/// Whether a value of type `V` can hold the sum of each run of buckets that
/// starts at the newest one.
pub open spec fn sums_hold<V: Accumulate>(buckets: Seq<int>) -> bool {
    forall|n: int| 0 < n <= buckets.len() ==> V::holds(sum(#[trigger] buckets.take(n)))
}

/// A running sum of samples over a window of fixed width, split into buckets
/// of equal width. The caller says what time it is.
#[derive(Debug)]
pub struct RunningAverage<V: Accumulate, I: TimeInstant + Copy> {
    window: VecDeque<V>,
    front: Option<I>,
    duration: Duration,
}

impl<V: Accumulate, I: TimeInstant + Copy> View for RunningAverage<V, I> {
    type V = Window;

    closed spec fn view(&self) -> Window {
        Window {
            buckets: amounts(self.window@),
            front: match self.front {
                Some(front) => Some(front.nanos()),
                None => None,
            },
            span: duration_nanos(self.duration),
        }
    }
}

impl<V: Accumulate, I: TimeInstant + Copy> Default for RunningAverage<V, I> {
    /// An average over a window of 8 seconds with 16 buckets.
    fn default() -> (average: Self)
        ensures
            average.wf(),
            average@ == Window::fresh(8_000_000_000, 16),
            duration_nanos(average.duration()) == 8_000_000_000,
    {
        RunningAverage::new(Duration::new(8, 0))
    }
}

impl<V: Accumulate, I: TimeInstant + Copy> RunningAverage<V, I> {
    /// Whether the average has a bucket to work with.
    pub open spec fn wf(&self) -> bool {
        self@.capacity() >= 1
    }

    /// The width of the window.
    pub closed spec fn duration(&self) -> Duration {
        self.duration
    }

    /// The window is as wide as the duration the average was made with.
    pub proof fn lemma_span(&self)
        ensures
            self@.span == duration_nanos(self.duration()),
    {
    }

    /// An average over a window of width `duration` with 16 buckets.
    pub fn new(duration: Duration) -> (average: Self)
        ensures
            average.wf(),
            average@ == Window::fresh(duration_nanos(duration), 16),
            average.duration() == duration,
    {
        Self::with_capacity(duration, 16)
    }

    /// An average over a window of width `duration` with `capacity` buckets.
    pub fn with_capacity(duration: Duration, capacity: usize) -> (average: Self)
        requires
            capacity > 0,
        ensures
            average.wf(),
            average@ == Window::fresh(duration_nanos(duration), capacity as nat),
            average.duration() == duration,
    {
        let mut window: VecDeque<V> = VecDeque::new();
        let mut filled: usize = 0;
        while filled < capacity
            invariant
                filled <= capacity,
                amounts(window@) == zeros(filled as nat),
            decreases capacity - filled,
        {
            let ghost held = window@;
            window.push_back(V::zero());
            filled = filled + 1;
            assert(amounts(window@) =~= amounts(held).push(0));
        }
        RunningAverage { window, front: None, duration }
    }

    /// Brings the window to `now`: retires each bucket that has ended and
    /// opens an empty one in its place, at most once per bucket.
    fn shift(&mut self, now: I)
        requires
            old(self).wf(),
            old(self)@.admits(now.nanos()),
        ensures
            final(self).wf(),
            final(self)@ == old(self)@.rotate(now.nanos()),
            final(self)@.admits(now.nanos()),
            final(self).duration() == old(self).duration(),
    {
        proof {
            self@.lemma_rotate_shape(now.nanos());
        }
        let ghost before = self@;
        let ghost anchor = before.anchor(now.nanos());
        let mut front: I = match self.front {
            Some(front) => front,
            None => now,
        };
        let capacity: usize = self.window.len();
        let slot: u128 = nanos_of(self.duration) / (capacity as u128);
        let slot_duration = duration_of(slot);
        let mut slots_to_go: usize = capacity;
        proof {
            assert(amounts(self.window@) =~= zeros(0) + before.buckets.take(capacity as int));
            assert((capacity - slots_to_go) * slot == 0) by (nonlinear_arith)
                requires
                    capacity == slots_to_go,
            ;
        }
        loop
            invariant_except_break
                front.nanos() == anchor + (capacity - slots_to_go) * slot,
                front.nanos() <= now.nanos(),
                amounts(self.window@) == zeros((capacity - slots_to_go) as nat) + before.buckets.take(
                    slots_to_go as int,
                ),
            invariant
                slots_to_go <= capacity,
                capacity == before.capacity(),
                capacity >= 1,
                self.window@.len() == capacity,
                slot == before.slot(),
                duration_nanos(slot_duration) == slot,
                anchor == before.anchor(now.nanos()),
                self.duration == old(self).duration,
            ensures
                amounts(self.window@) == before.rotate(now.nanos()).buckets,
                Some(front.nanos()) == before.rotate(now.nanos()).front,
            decreases slots_to_go,
        {
            let ghost turned = capacity - slots_to_go;
            let since_front = now.duration_since(front);
            if nanos_of(since_front) < slot {
                proof {
                    lemma_turns_exact(now.nanos() - anchor, slot as int, turned);
                }
                break ;
            }
            if slots_to_go == 0 {
                // Every bucket is empty by now: the rest of the gap is skipped.
                front.forward(since_front);
                proof {
                    if slot > 0 {
                        lemma_turns_exceed(now.nanos() - anchor, slot as int, turned);
                    }
                    assert(before.buckets.take(0) =~= Seq::<int>::empty());
                    assert(amounts(self.window@) =~= zeros(capacity as nat));
                }
                break ;
            }
            let ghost held = self.window@;
            self.window.pop_back();
            self.window.push_front(V::zero());
            assert(front.nanos() + duration_nanos(slot_duration) <= now.nanos());
            front.forward(slot_duration);
            slots_to_go = slots_to_go - 1;
            proof {
                assert(amounts(self.window@) =~= seq![0int] + amounts(held).drop_last());
                assert(amounts(self.window@) =~= zeros((turned + 1) as nat) + before.buckets.take(
                    slots_to_go as int,
                ));
                assert((turned + 1) * slot == turned * slot + slot) by (nonlinear_arith);
            }
        }
        self.front = Some(front);
    }

    /// Adds `val` to the samples at the instant `now`, which must not be
    /// earlier than the instant of a call before.
    pub fn insert(&mut self, now: I, val: V)
        requires
            old(self).wf(),
            old(self)@.admits(now.nanos()),
            V::holds(old(self)@.rotate(now.nanos()).buckets[0] + val.amount()),
        ensures
            final(self).wf(),
            final(self)@ == old(self)@.insert(now.nanos(), val.amount()),
            final(self)@.admits(now.nanos()),
            final(self).duration() == old(self).duration(),
    {
        self.shift(now);
        let ghost at = self.window@;
        let newest = self.window.pop_front();
        let mut newest: V = newest.unwrap();
        newest.accumulate(&val);
        self.window.push_front(newest);
        assert(amounts(self.window@) =~= amounts(at).update(0, amounts(at)[0] + val.amount()));
    }

    /// The sum of the samples in the window that ends at the instant `now`,
    /// which must not be earlier than the instant of a call before.
    pub fn measurement(&mut self, now: I) -> (m: Measurement<V>)
        requires
            old(self).wf(),
            old(self)@.admits(now.nanos()),
            sums_hold::<V>(old(self)@.rotate(now.nanos()).buckets),
        ensures
            final(self).wf(),
            final(self)@ == old(self)@.rotate(now.nanos()),
            final(self)@.admits(now.nanos()),
            final(self).duration() == old(self).duration(),
            m.sum().amount() == final(self)@.total(),
            m.window() == final(self).duration(),
    {
        self.shift(now);
        let ghost buckets = amounts(self.window@);
        let mut total = V::zero();
        let mut seen: usize = 0;
        assert(buckets.take(0) =~= Seq::<int>::empty());
        while seen < self.window.len()
            invariant
                seen <= self.window@.len(),
                buckets == amounts(self.window@),
                sums_hold::<V>(buckets),
                total.amount() == sum(buckets.take(seen as int)),
            decreases self.window@.len() - seen,
        {
            assert(buckets.take(seen + 1).drop_last() =~= buckets.take(seen as int));
            total.accumulate(&self.window[seen]);
            seen = seen + 1;
        }
        assert(buckets.take(seen as int) =~= buckets);
        Measurement::new(total, self.duration)
    }
}

/// A gap that holds `turns` whole slots and less than one more.
proof fn lemma_turns_exact(gap: int, slot: int, turns: int)
    requires
        turns * slot <= gap < turns * slot + slot,
        slot > 0,
    ensures
        gap / slot == turns,
{
    vstd::arithmetic::div_mod::lemma_fundamental_div_mod_converse(
        gap,
        slot,
        turns,
        gap - turns * slot,
    );
}

/// A gap that holds more than `turns` whole slots.
proof fn lemma_turns_exceed(gap: int, slot: int, turns: int)
    requires
        turns * slot + slot <= gap,
        slot > 0,
    ensures
        gap / slot > turns,
{
    assert(gap / slot > turns) by (nonlinear_arith)
        requires
            turns * slot + slot <= gap,
            slot > 0,
    ;
}

} // verus!
