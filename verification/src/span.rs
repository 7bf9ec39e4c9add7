//! Lengths of time as whole nanoseconds.

use std::time::Duration;
use vstd::prelude::*;

verus! {

/// One more than the largest number of nanoseconds a [`Duration`] can be long:
/// 2^64 seconds.
pub open spec fn duration_limit() -> nat {
    0x1_0000_0000_0000_0000 * 1_000_000_000
}

/// The length of a [`Duration`] in nanoseconds.
pub uninterp spec fn duration_nanos(d: Duration) -> nat;

/// `Duration::as_secs` gives the whole seconds of the length.
pub assume_specification[ Duration::as_secs ](d: &Duration) -> (secs: u64)
    ensures
        secs == duration_nanos(*d) / 1_000_000_000,
;

/// `Duration::subsec_nanos` gives the part of the length below one second.
pub assume_specification[ Duration::subsec_nanos ](d: &Duration) -> (nanos: u32)
    ensures
        nanos == duration_nanos(*d) % 1_000_000_000,
;

/// `Duration::new` builds the length `secs` seconds plus `nanos` nanoseconds.
/// It panics only when `nanos` carries into seconds that overflow, which a
/// `nanos` below one second never does.
pub assume_specification[ Duration::new ](secs: u64, nanos: u32) -> (d: Duration)
    requires
        nanos < 1_000_000_000,
    ensures
        duration_nanos(d) == secs * 1_000_000_000 + nanos,
;

/// The length of `d` in nanoseconds.
pub fn nanos_of(d: Duration) -> (n: u128)
    ensures
        n == duration_nanos(d),
        n < duration_limit(),
{
    let secs: u64 = d.as_secs();
    let sub: u32 = d.subsec_nanos();
    (secs as u128) * 1_000_000_000u128 + (sub as u128)
}

/// The duration that is `n` nanoseconds long.
pub fn duration_of(n: u128) -> (d: Duration)
    requires
        n < duration_limit(),
    ensures
        duration_nanos(d) == n,
{
    let secs: u128 = n / 1_000_000_000u128;
    let sub: u128 = n % 1_000_000_000u128;
    Duration::new(secs as u64, sub as u32)
}

} // verus!
