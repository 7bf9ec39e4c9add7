//! A running average that reads the time from a clock of its own.

use crate::average::{sums_hold, RunningAverage};
use crate::measurement::Measurement;
use crate::span::duration_nanos;
use crate::time::{RealTimeSource, TimeInstant, TimeSource};
use crate::value::Accumulate;
use crate::window::Window;
use std::time::Duration;
use vstd::prelude::*;

verus! {

/// A running average bound to a clock: each call asks the clock for the
/// instant and hands it to the average.
#[derive(Debug)]
pub struct RealTimeRunningAverage<V: Accumulate, TS: TimeSource = RealTimeSource> {
    inner: RunningAverage<V, TS::Instant>,
    time_source: TS,
}

impl<V: Accumulate, TS: TimeSource> View for RealTimeRunningAverage<V, TS> {
    type V = Window;

    closed spec fn view(&self) -> Window {
        self.inner@
    }
}

impl<V: Accumulate> Default for RealTimeRunningAverage<V, RealTimeSource> {
    /// An average over a window of 8 seconds with 16 buckets, on the system's
    /// monotonic clock.
    fn default() -> (average: Self)
        ensures
            average.wf(),
            average@ == Window::fresh(8_000_000_000, 16),
            duration_nanos(average.duration()) == 8_000_000_000,
            average.source() == RealTimeSource,
    {
        RealTimeRunningAverage::new(Duration::new(8, 0))
    }
}

impl<V: Accumulate> RealTimeRunningAverage<V, RealTimeSource> {
    /// An average over a window of width `duration` with 16 buckets, on the
    /// system's monotonic clock.
    pub fn new(duration: Duration) -> (average: Self)
        ensures
            average.wf(),
            average@ == Window::fresh(duration_nanos(duration), 16),
            average.duration() == duration,
            average.source() == RealTimeSource,
    {
        RealTimeRunningAverage { inner: RunningAverage::new(duration), time_source: RealTimeSource }
    }
}

impl<V: Accumulate, TS: TimeSource> RealTimeRunningAverage<V, TS> {
    /// Whether the average has a bucket to work with.
    pub open spec fn wf(&self) -> bool {
        self@.capacity() >= 1
    }

    /// The clock.
    pub closed spec fn source(&self) -> TS {
        self.time_source
    }

    /// The width of the window.
    pub closed spec fn duration(&self) -> Duration {
        self.inner.duration()
    }

    /// The window is as wide as the duration the average was made with.
    pub proof fn lemma_span(&self)
        ensures
            self@.span == duration_nanos(self.duration()),
    {
        self.inner.lemma_span();
    }

    /// Whether the clock has not gone back behind the window: whatever
    /// instant it reports now, the window can move to it. It is for the
    /// clock to keep this true; a clock that is set by hand does as long as
    /// it is only moved forward.
    pub open spec fn on_time(&self) -> bool {
        forall|t: TS::Instant|
            #![trigger self.source().reports(t)]
            self.source().reports(t) ==> self@.admits(t.nanos())
    }

    /// Whether the newest bucket can hold `amount` more, whatever instant the
    /// clock reports now.
    pub open spec fn can_take(&self, amount: int) -> bool {
        forall|t: TS::Instant|
            #![trigger self.source().reports(t)]
            self.source().reports(t) ==> V::holds(self@.rotate(t.nanos()).buckets[0] + amount)
    }

    /// Whether the buckets can be summed up, whatever instant the clock
    /// reports now.
    pub open spec fn can_sum(&self) -> bool {
        forall|t: TS::Instant|
            #![trigger self.source().reports(t)]
            self.source().reports(t) ==> sums_hold::<V>(self@.rotate(t.nanos()).buckets)
    }

    /// An average over a window of width `duration` with `capacity` buckets,
    /// on the clock `time_source`.
    pub fn with_time_source(duration: Duration, capacity: usize, time_source: TS) -> (average: Self)
        requires
            capacity > 0,
        ensures
            average.wf(),
            average@ == Window::fresh(duration_nanos(duration), capacity as nat),
            average.duration() == duration,
            average.source() == time_source,
    {
        RealTimeRunningAverage { inner: RunningAverage::with_capacity(duration, capacity), time_source }
    }

    /// Adds `val` to the samples at the instant the clock reports.
    pub fn insert(&mut self, val: V)
        requires
            old(self).wf(),
            old(self).on_time(),
            old(self).can_take(val.amount()),
        ensures
            final(self).wf(),
            exists|t: TS::Instant|
                #![trigger old(self).source().reports(t)]
                old(self).source().reports(t) && final(self)@ == old(self)@.insert(
                    t.nanos(),
                    val.amount(),
                ) && final(self)@.admits(t.nanos()),
            final(self).source() == old(self).source(),
            final(self).duration() == old(self).duration(),
    {
        let now = self.time_source.now();
        assert(self.source().reports(now));
        self.inner.insert(now, val)
    }

    /// The sum of the samples in the window that ends at the instant the
    /// clock reports.
    pub fn measurement(&mut self) -> (m: Measurement<V>)
        requires
            old(self).wf(),
            old(self).on_time(),
            old(self).can_sum(),
        ensures
            final(self).wf(),
            exists|t: TS::Instant|
                #![trigger old(self).source().reports(t)]
                old(self).source().reports(t) && final(self)@ == old(self)@.rotate(t.nanos())
                    && final(self)@.admits(t.nanos()),
            m.sum().amount() == final(self)@.total(),
            m.window() == final(self).duration(),
            final(self).source() == old(self).source(),
            final(self).duration() == old(self).duration(),
    {
        let now = self.time_source.now();
        assert(self.source().reports(now));
        self.inner.measurement(now)
    }

    /// The clock, to set it.
    pub fn time_source(&mut self) -> (source: &mut TS)
        ensures
            *source == old(self).source(),
            final(self).source() == *final(source),
            final(self)@ == old(self)@,
            final(self).duration() == old(self).duration(),
    {
        &mut self.time_source
    }
}

} // verus!
