//! Running averages of a stream of samples over a sliding window of time,
//! kept in constant memory.
//!
//! A [`RunningAverage`] splits its window into buckets of equal width. Each
//! sample is added to the newest bucket; as time passes, buckets that have
//! ended leave the window and empty ones take their place. A measurement is
//! the sum over all buckets, and with the window's width a rate.
//!
//! [`RunningAverage`] is told the time by its caller. A
//! [`RealTimeRunningAverage`] asks a clock of its own: the system's
//! ([`RealTimeSource`]) or one that is set by hand ([`ManualTimeSource`]).
//!
//! What the functions do is stated over [`window::Window`], the state of an
//! average as plain numbers; [`laws`] holds what follows for every window.

pub mod average;
pub mod laws;
pub mod measurement;
pub mod rate;
pub mod realtime;
pub mod span;
pub mod time;
pub mod value;
pub mod window;

pub use average::RunningAverage;
pub use measurement::Measurement;
pub use rate::{Rate, ToRate};
pub use realtime::RealTimeRunningAverage;
pub use time::{ManualTimeSource, RealTimeSource, TimeInstant, TimeSource};
pub use value::Accumulate;
