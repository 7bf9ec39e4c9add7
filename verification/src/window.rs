//! The window of a running average as plain numbers: what its buckets hold,
//! and what the passing of time does to them.

use vstd::prelude::*;

verus! {

/// The sum of the numbers in `s`.
pub open spec fn sum(s: Seq<int>) -> int
    decreases s.len(),
{
    if s.len() == 0 {
        0
    } else {
        sum(s.drop_last()) + s.last()
    }
}

/// `n` zeros.
pub open spec fn zeros(n: nat) -> Seq<int> {
    Seq::new(n, |i: int| 0int)
}

/// Zeros add up to zero.
pub proof fn lemma_sum_zeros(n: nat)
    ensures
        sum(zeros(n)) == 0,
    decreases n,
{
    if n > 0 {
        assert(zeros(n).drop_last() =~= zeros((n - 1) as nat));
        lemma_sum_zeros((n - 1) as nat);
    }
}

/// The sum of two sequences laid end to end is the sum of their sums.
pub proof fn lemma_sum_concat(a: Seq<int>, b: Seq<int>)
    ensures
        sum(a + b) == sum(a) + sum(b),
    decreases b.len(),
{
    if b.len() == 0 {
        assert(a + b =~= a);
    } else {
        assert((a + b).drop_last() =~= a + b.drop_last());
        lemma_sum_concat(a, b.drop_last());
    }
}

/// Changing one number changes the sum by as much.
pub proof fn lemma_sum_update(s: Seq<int>, at: int, to: int)
    requires
        0 <= at < s.len(),
    ensures
        sum(s.update(at, to)) == sum(s) - s[at] + to,
    decreases s.len(),
{
    if at == s.len() - 1 {
        assert(s.update(at, to).drop_last() =~= s.drop_last());
    } else {
        assert(s.update(at, to).drop_last() =~= s.drop_last().update(at, to));
        lemma_sum_update(s.drop_last(), at, to);
    }
}

/// The state of a running average.
pub struct Window {
    /// What each bucket has added up, the newest bucket first.
    pub buckets: Seq<int>,
    /// The start of the newest bucket on the time line, in nanoseconds, once
    /// a first instant has been seen.
    pub front: Option<int>,
    /// The width of the whole window in nanoseconds.
    pub span: nat,
}

impl Window {
    /// A window of `capacity` empty buckets that has seen no instant yet.
    pub open spec fn fresh(span: nat, capacity: nat) -> Window {
        Window { buckets: zeros(capacity), front: None, span }
    }

    /// The number of buckets.
    pub open spec fn capacity(self) -> nat {
        self.buckets.len()
    }

    /// The width of one bucket in nanoseconds.
    pub open spec fn slot(self) -> nat {
        self.span / self.capacity()
    }

    /// The sum over all buckets.
    pub open spec fn total(self) -> int {
        sum(self.buckets)
    }

    /// Whether `now` is an instant the window can move to: time does not go
    /// backwards.
    pub open spec fn admits(self, now: int) -> bool {
        match self.front {
            Some(front) => front <= now,
            None => true,
        }
    }

    /// The start of the newest bucket; for a window that has seen no instant
    /// yet, `now`.
    pub open spec fn anchor(self, now: int) -> int {
        match self.front {
            Some(front) => front,
            None => now,
        }
    }

    /// How many buckets end at or before `now`. With buckets of no width
    /// every bucket does, and so does every bucket that could follow.
    pub open spec fn lag(self, now: int) -> int {
        if self.slot() == 0 {
            self.capacity() as int + 1
        } else {
            (now - self.anchor(now)) / (self.slot() as int)
        }
    }

    /// The window at `now`: each bucket that ended has left at the old end
    /// and an empty one has come in at the new end. Where more buckets ended
    /// than the window has, the newest bucket starts at `now`.
    pub open spec fn rotate(self, now: int) -> Window {
        let lag = self.lag(now);
        if lag > self.capacity() {
            Window { buckets: zeros(self.capacity()), front: Some(now), span: self.span }
        } else {
            Window {
                buckets: zeros(lag as nat) + self.buckets.take(self.capacity() - lag),
                front: Some(self.anchor(now) + lag * self.slot()),
                span: self.span,
            }
        }
    }

    /// Turning a window keeps its shape: as many buckets, the same width.
    /// After it the newest bucket starts at or before `now`, and less than
    /// one bucket's width before it where buckets have a width.
    pub proof fn lemma_rotate_shape(self, now: int)
        requires
            self.admits(now),
        ensures
            0 <= self.lag(now),
            self.rotate(now).capacity() == self.capacity(),
            self.rotate(now).span == self.span,
            self.rotate(now).front is Some,
            self.rotate(now).admits(now),
            self.slot() > 0 ==> now - self.rotate(now).front.unwrap() < self.slot(),
            self.slot() == 0 ==> self.rotate(now).front == Some(now),
    {
        let gap = now - self.anchor(now);
        let slot = self.slot() as int;
        if slot > 0 {
            vstd::arithmetic::div_mod::lemma_fundamental_div_mod(gap, slot);
            vstd::arithmetic::div_mod::lemma_mod_bound(gap, slot);
            vstd::arithmetic::div_mod::lemma_div_pos_is_pos(gap, slot);
            vstd::arithmetic::mul::lemma_mul_is_commutative(slot, gap / slot);
        }
    }

    /// The window at `now` with `amount` added to its newest bucket.
    pub open spec fn insert(self, now: int, amount: int) -> Window {
        let at = self.rotate(now);
        Window { buckets: at.buckets.update(0, at.buckets[0] + amount), front: at.front, span: at.span }
    }
}

} // verus!
