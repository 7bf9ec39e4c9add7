use running_average::{ManualTimeSource, Rate, RealTimeRunningAverage, TimeSource};
use std::time::Duration;

/// The rate per second as a floating-point number.
fn rate_of(rate: Rate) -> f64 {
    let seconds = (rate.nanos / 1_000_000_000) as f64 + (rate.nanos % 1_000_000_000) as f64 * 1e-9;
    rate.amount as f64 / seconds
}

#[test]
fn const_over_different_capacity() {
    for capacity in 1..31 {
        let mut tw = RealTimeRunningAverage::with_time_source(
            Duration::from_secs(4),
            capacity,
            ManualTimeSource::new(),
        );

        tw.insert(10);
        tw.time_source().time_shift(Duration::from_secs(1));
        tw.insert(10);
        tw.time_source().time_shift(Duration::from_secs(1));
        tw.insert(10);
        tw.time_source().time_shift(Duration::from_secs(1));
        tw.insert(10);

        assert_eq!(tw.measurement().unwrap(), 40, "for capacity {}: {:?}", capacity, tw);
        assert_eq!(rate_of(tw.measurement().to_rate()), 10.0, "for capacity {}: {:?}", capacity, tw);
    }
}

#[test]
fn const_half_time_over_different_capacity() {
    for capacity in 1..31 {
        let mut tw = RealTimeRunningAverage::with_time_source(
            Duration::from_secs(4),
            capacity,
            ManualTimeSource::new(),
        );

        tw.insert(10);
        tw.time_source().time_shift(Duration::from_secs(1));
        tw.insert(10);
        tw.time_source().time_shift(Duration::from_secs(1));
        tw.time_source().time_shift(Duration::from_secs(1));

        assert_eq!(tw.measurement().unwrap(), 20, "for capacity {}: {:?}", capacity, tw);
        assert_eq!(rate_of(tw.measurement().to_rate()), 5.0, "for capacity {}: {:?}", capacity, tw);
    }
}

#[test]
fn long_time_shift() {
    let mut tw =
        RealTimeRunningAverage::with_time_source(Duration::from_secs(4), 16, ManualTimeSource::new());

    tw.insert(10);
    tw.time_source().time_shift(Duration::from_secs(1_000_000_000));
    tw.insert(10);
    tw.time_source().time_shift(Duration::from_secs(1));
    tw.insert(10);
    tw.time_source().time_shift(Duration::from_secs(1));
    tw.insert(10);
    tw.time_source().time_shift(Duration::from_secs(1));
    tw.insert(10);

    assert_eq!(tw.measurement().unwrap(), 40, "long: {:?}", tw);
    assert_eq!(rate_of(tw.measurement().to_rate()), 10.0, "long: {:?}", tw);
}

#[test]
fn manual_clock_starts_at_zero_and_adds_up_shifts() {
    let mut clock = ManualTimeSource::new();
    assert_eq!(clock.now(), 0);

    clock.time_shift(Duration::new(2, 250));
    assert_eq!(clock.now(), 2_000_000_250);

    clock.time_shift(Duration::from_nanos(1));
    clock.time_shift(Duration::new(0, 0));
    assert_eq!(clock.now(), 2_000_000_251);
}

#[test]
fn reading_twice_gives_the_same_sum() {
    for capacity in 1..31 {
        let mut tw = RealTimeRunningAverage::with_time_source(
            Duration::from_secs(4),
            capacity,
            ManualTimeSource::new(),
        );

        tw.insert(3);
        tw.time_source().time_shift(Duration::from_millis(2700));
        tw.insert(4);
        tw.time_source().time_shift(Duration::from_millis(900));

        let first = tw.measurement().unwrap();
        let second = tw.measurement().unwrap();
        assert_eq!(first, second);
        assert_eq!(first, 7);
    }
}

#[test]
fn samples_leave_when_the_window_has_passed() {
    let mut tw =
        RealTimeRunningAverage::with_time_source(Duration::from_secs(4), 4, ManualTimeSource::new());

    tw.insert(1);
    tw.time_source().time_shift(Duration::from_secs(1));
    tw.insert(2);
    tw.time_source().time_shift(Duration::from_secs(2));
    tw.insert(4);
    assert_eq!(tw.measurement().unwrap(), 7);

    tw.time_source().time_shift(Duration::from_secs(1));
    assert_eq!(tw.measurement().unwrap(), 6);

    tw.time_source().time_shift(Duration::from_secs(1));
    assert_eq!(tw.measurement().unwrap(), 4);

    tw.time_source().time_shift(Duration::from_secs(2));
    assert_eq!(tw.measurement().unwrap(), 0);
}

#[test]
fn sum_does_not_depend_on_capacity() {
    let mut sums = Vec::new();
    for capacity in 1..31 {
        let mut tw = RealTimeRunningAverage::with_time_source(
            Duration::from_secs(60),
            capacity,
            ManualTimeSource::new(),
        );
        for step in 0..29u64 {
            tw.insert(step);
            tw.time_source().time_shift(Duration::from_secs(2));
        }
        sums.push(tw.measurement().unwrap());
    }
    assert!(sums.iter().all(|sum| *sum == 406));
}
