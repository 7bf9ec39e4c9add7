//! Points in time and the clocks that report them.

use crate::span::{duration_nanos, duration_of, nanos_of};
use std::time::{Duration, Instant};
use vstd::prelude::*;

verus! {

/// A point in time that can be compared with an earlier one and moved forward.
pub trait TimeInstant: Sized {
    /// Where the instant lies on its clock's time line, in nanoseconds.
    spec fn nanos(&self) -> int;

    /// The time that passed from `since` to `self`.
    fn duration_since(&self, since: Self) -> (elapsed: Duration)
        requires
            since.nanos() <= self.nanos(),
        ensures
            duration_nanos(elapsed) == self.nanos() - since.nanos(),
    ;

    /// Moves the instant `duration` into the future. The target must not lie
    /// beyond every instant of the clock.
    fn forward(&mut self, duration: Duration)
        requires
            exists|later: Self| old(self).nanos() + duration_nanos(duration) <= #[trigger] later.nanos(),
        ensures
            final(self).nanos() == old(self).nanos() + duration_nanos(duration),
    ;
}

/// A clock.
pub trait TimeSource {
    /// The instants this clock reports.
    type Instant: TimeInstant + Copy;

    /// Whether the clock, as it stands, can report `t` as the current
    /// instant. A clock that is set by hand reports the instant it was set
    /// to; of the reading of a clock that runs by itself nothing is known
    /// beforehand.
    spec fn reports(&self, t: Self::Instant) -> bool;

    /// The current instant.
    fn now(&self) -> (t: Self::Instant)
        ensures
            self.reports(t),
    ;
}

/// `std::time::Instant`: a reading of the system's monotonic clock. What is
/// inside one is not looked at.
#[verifier::external_type_specification]
#[verifier::external_body]
pub struct ExInstant(Instant);

/// Where an [`Instant`] lies on the monotonic clock's time line, in nanoseconds.
pub uninterp spec fn instant_nanos(t: Instant) -> int;

/// `Instant::now` reads the monotonic clock; nothing is known of the reading.
#[verifier::external_body]
fn instant_now() -> (t: Instant) {
    Instant::now()
}

/// `Instant::duration_since` gives the time from `earlier` to `t`. It is only
/// called with an `earlier` that is not later than `t`.
#[verifier::external_body]
fn instant_elapsed(t: &Instant, earlier: Instant) -> (elapsed: Duration)
    requires
        instant_nanos(earlier) <= instant_nanos(*t),
    ensures
        duration_nanos(elapsed) == instant_nanos(*t) - instant_nanos(earlier),
{
    t.duration_since(earlier)
}

/// `Instant += Duration` moves the instant forward by the duration. It panics
/// only when the target cannot be represented, which cannot be the case for a
/// target at or before another instant.
#[verifier::external_body]
fn instant_forward(t: &mut Instant, by: Duration)
    requires
        exists|later: Instant| instant_nanos(*old(t)) + duration_nanos(by) <= #[trigger] instant_nanos(later),
    ensures
        instant_nanos(*final(t)) == instant_nanos(*old(t)) + duration_nanos(by),
{
    *t += by;
}

impl TimeInstant for Instant {
    open spec fn nanos(&self) -> int {
        instant_nanos(*self)
    }

    fn duration_since(&self, since: Self) -> (elapsed: Duration) {
        instant_elapsed(self, since)
    }

    fn forward(&mut self, duration: Duration) {
        proof {
            let later = choose|later: Instant| self.nanos() + duration_nanos(duration) <= #[trigger] later.nanos();
            assert(instant_nanos(*self) + duration_nanos(duration) <= instant_nanos(later));
        }
        instant_forward(self, duration);
    }
}

/// The system's monotonic clock.
#[derive(Debug)]
pub struct RealTimeSource;

impl TimeSource for RealTimeSource {
    type Instant = Instant;

    open spec fn reports(&self, t: Instant) -> bool {
        true
    }

    fn now(&self) -> (t: Instant) {
        instant_now()
    }
}

/// An instant of a clock that is set by hand: nanoseconds since the clock's
/// start.
impl TimeInstant for u64 {
    open spec fn nanos(&self) -> int {
        *self as int
    }

    fn duration_since(&self, since: Self) -> (elapsed: Duration) {
        let gap: u64 = *self - since;
        duration_of(gap as u128)
    }

    fn forward(&mut self, duration: Duration) {
        let by: u128 = nanos_of(duration);
        proof {
            let later = choose|later: u64| self.nanos() + duration_nanos(duration) <= #[trigger] later.nanos();
            assert(*self + by <= later);
        }
        *self = *self + (by as u64);
    }
}

/// A clock that stands still until it is moved by hand.
#[derive(Debug)]
pub struct ManualTimeSource {
    now: u64,
}

impl ManualTimeSource {
    /// The instant the clock shows.
    pub closed spec fn instant(&self) -> u64 {
        self.now
    }

    /// A clock at its start.
    pub fn new() -> (source: ManualTimeSource)
        ensures
            source.instant() == 0,
    {
        ManualTimeSource { now: 0 }
    }

    /// Moves the clock forward by `by`, as far as its instants reach.
    pub fn time_shift(&mut self, by: Duration)
        requires
            old(self).instant() + duration_nanos(by) <= u64::MAX,
        ensures
            final(self).instant() == old(self).instant() + duration_nanos(by),
    {
        let by: u128 = nanos_of(by);
        self.now = self.now + (by as u64);
    }
}

impl TimeSource for ManualTimeSource {
    type Instant = u64;

    open spec fn reports(&self, t: u64) -> bool {
        t == self.instant()
    }

    fn now(&self) -> (t: u64) {
        self.now
    }
}

} // verus!
