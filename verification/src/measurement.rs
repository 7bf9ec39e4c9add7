//! What a running average reports.

use crate::rate::{Rate, ToRate};
use std::time::Duration;
use vstd::prelude::*;

verus! {

/// The sum of the samples in the window, together with the window's width.
#[derive(Debug)]
pub struct Measurement<T> {
    value: T,
    duration: Duration,
}

impl<T> Measurement<T> {
    /// The sum of the samples.
    pub closed spec fn sum(&self) -> T {
        self.value
    }

    /// The width of the window the samples were taken from.
    pub closed spec fn window(&self) -> Duration {
        self.duration
    }

    /// A measurement of `value` over a window of `duration`.
    pub(crate) fn new(value: T, duration: Duration) -> (m: Self)
        ensures
            m.sum() == value,
            m.window() == duration,
    {
        Measurement { value, duration }
    }

    /// The sum of all samples in the window.
    pub fn value(&self) -> (v: &T)
        ensures
            *v == self.sum(),
    {
        &self.value
    }

    /// The sum of all samples in the window, by value.
    pub fn unwrap(self) -> (v: T)
        ensures
            v == self.sum(),
    {
        self.value
    }

    /// The running average: the sum of all samples over the width of the
    /// window.
    pub fn rate(&self) -> (rate: <T as ToRate>::Output) where T: Copy + ToRate
        ensures
            rate == self.sum().rate_over(self.window()),
    {
        self.value.to_rate(self.duration)
    }

    /// The running average: the sum of all samples over the width of the
    /// window.
    pub fn to_rate(self) -> (rate: <T as ToRate>::Output) where T: ToRate
        ensures
            rate == self.sum().rate_over(self.window()),
    {
        self.value.to_rate(self.duration)
    }

    /// The running average per second as text with three decimal places,
    /// such as `2.500`.
    pub fn to_string(&self) -> (text: String) where T: Copy + ToRate<Output = Rate>
        ensures
            text@ == self.sum().rate_over(self.window()).text(),
    {
        self.rate().to_string()
    }

    /// The sum of the samples, and in brackets the running average per second
    /// with two decimal places, such as `20 (2.50/s)`.
    pub fn to_long_string(&self) -> (text: String) where T: Copy + ToRate<Output = Rate>
        ensures
            text@ == self.sum().rate_over(self.window()).long_text(),
    {
        self.rate().to_long_string()
    }
}

} // verus!
