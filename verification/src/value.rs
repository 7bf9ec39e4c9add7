//! The values that a window adds up.

use vstd::prelude::*;

verus! {

/// A value that can be summed into a bucket: it has a zero and can take
/// another value of its kind on board.
pub trait Accumulate: Sized {
    /// The number the value stands for.
    spec fn amount(&self) -> int;

    /// Whether the type has a value that stands for `n`.
    spec fn holds(n: int) -> bool;

    /// The value that stands for zero.
    fn zero() -> (z: Self)
        ensures
            z.amount() == 0,
    ;

    /// Adds `other` to `self`, where the type can hold the sum.
    fn accumulate(&mut self, other: &Self)
        requires
            Self::holds(old(self).amount() + other.amount()),
        ensures
            final(self).amount() == old(self).amount() + other.amount(),
    ;
}

impl Accumulate for i32 {
    open spec fn amount(&self) -> int {
        *self as int
    }

    open spec fn holds(n: int) -> bool {
        i32::MIN <= n <= i32::MAX
    }

    fn zero() -> (z: Self) {
        0
    }

    fn accumulate(&mut self, other: &Self) {
        *self = *self + *other;
    }
}

impl Accumulate for i64 {
    open spec fn amount(&self) -> int {
        *self as int
    }

    open spec fn holds(n: int) -> bool {
        i64::MIN <= n <= i64::MAX
    }

    fn zero() -> (z: Self) {
        0
    }

    fn accumulate(&mut self, other: &Self) {
        *self = *self + *other;
    }
}

impl Accumulate for u32 {
    open spec fn amount(&self) -> int {
        *self as int
    }

    open spec fn holds(n: int) -> bool {
        0 <= n <= u32::MAX
    }

    fn zero() -> (z: Self) {
        0
    }

    fn accumulate(&mut self, other: &Self) {
        *self = *self + *other;
    }
}

impl Accumulate for u64 {
    open spec fn amount(&self) -> int {
        *self as int
    }

    open spec fn holds(n: int) -> bool {
        0 <= n <= u64::MAX
    }

    fn zero() -> (z: Self) {
        0
    }

    fn accumulate(&mut self, other: &Self) {
        *self = *self + *other;
    }
}

} // verus!
