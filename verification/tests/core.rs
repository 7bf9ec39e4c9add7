use running_average::RunningAverage;
use std::time::Duration;

const SECOND: u64 = 1_000_000_000;

#[test]
fn fresh_average_measures_zero() {
    let mut avg = RunningAverage::<i64, u64>::new(Duration::from_secs(8));
    assert_eq!(avg.measurement(0).unwrap(), 0);

    let mut avg = RunningAverage::<u32, u64>::default();
    assert_eq!(avg.measurement(5 * SECOND).unwrap(), 0);
}

#[test]
fn first_instant_need_not_be_the_clocks_start() {
    let mut avg = RunningAverage::<i32, u64>::with_capacity(Duration::from_secs(4), 4);

    // An average that lay idle does not expire before its first use.
    avg.insert(1_000_000 * SECOND, 5);
    avg.insert(1_000_001 * SECOND, 6);

    assert_eq!(avg.measurement(1_000_003 * SECOND).unwrap(), 11);
}

#[test]
fn bucket_leaves_exactly_when_its_slot_is_over() {
    let mut avg = RunningAverage::<i32, u64>::with_capacity(Duration::from_secs(4), 4);

    avg.insert(0, 10);
    avg.insert(SECOND - 1, 1);
    avg.insert(SECOND, 100);

    // The oldest bucket covers [0 s, 1 s) and leaves at 4 s.
    assert_eq!(avg.measurement(4 * SECOND - 1).unwrap(), 111);
    assert_eq!(avg.measurement(4 * SECOND).unwrap(), 100);
    assert_eq!(avg.measurement(5 * SECOND - 1).unwrap(), 100);
    assert_eq!(avg.measurement(5 * SECOND).unwrap(), 0);
}

#[test]
fn one_bucket_empties_all_at_once() {
    let mut avg = RunningAverage::<u64, u64>::with_capacity(Duration::from_secs(4), 1);

    avg.insert(0, 1);
    avg.insert(3 * SECOND, 2);
    assert_eq!(avg.measurement(4 * SECOND - 1).unwrap(), 3);
    assert_eq!(avg.measurement(4 * SECOND).unwrap(), 0);
}

#[test]
fn slots_are_whole_nanoseconds() {
    // Three buckets over four seconds are 1_333_333_333 ns wide each, so the
    // three of them end one nanosecond before the window does.
    let mut avg = RunningAverage::<i32, u64>::with_capacity(Duration::from_secs(4), 3);
    avg.insert(0, 10);
    assert_eq!(avg.measurement(3_999_999_998).unwrap(), 10);

    let mut avg = RunningAverage::<i32, u64>::with_capacity(Duration::from_secs(4), 3);
    avg.insert(0, 10);
    assert_eq!(avg.measurement(3_999_999_999).unwrap(), 0);
}

#[test]
fn gap_far_wider_than_the_window_empties_it() {
    let mut avg = RunningAverage::<i32, u64>::with_capacity(Duration::from_secs(4), 16);

    avg.insert(0, 10);
    assert_eq!(avg.measurement(1_000_000_000 * SECOND + 123).unwrap(), 0);

    // The newest bucket starts at the instant of the reading.
    avg.insert(1_000_000_000 * SECOND + 123 + SECOND / 4 - 1, 1);
    avg.insert(1_000_000_000 * SECOND + 123 + SECOND / 4, 2);
    assert_eq!(avg.measurement(1_000_000_000 * SECOND + 123 + 4 * SECOND - 1).unwrap(), 3);
    assert_eq!(avg.measurement(1_000_000_000 * SECOND + 123 + 4 * SECOND).unwrap(), 2);
}

#[test]
fn window_without_width_keeps_nothing() {
    let mut avg = RunningAverage::<i32, u64>::with_capacity(Duration::from_nanos(3), 4);

    avg.insert(0, 10);
    assert_eq!(avg.measurement(0).unwrap(), 0);

    avg.insert(7, 10);
    avg.insert(7, 10);
    assert_eq!(avg.measurement(7).unwrap(), 0);
}

#[test]
fn negative_samples_are_summed() {
    let mut avg = RunningAverage::<i64, u64>::with_capacity(Duration::from_secs(10), 5);

    avg.insert(0, -7);
    avg.insert(2 * SECOND, 4);
    avg.insert(2 * SECOND, -1);
    avg.insert(9 * SECOND, i64::MAX - 3);

    assert_eq!(avg.measurement(9 * SECOND).unwrap(), i64::MAX - 7);
    assert_eq!(avg.measurement(10 * SECOND).unwrap(), i64::MAX);
    assert_eq!(avg.measurement(12 * SECOND).unwrap(), i64::MAX - 3);
}

#[test]
fn measurement_carries_the_window() {
    let mut avg = RunningAverage::<u32, u64>::with_capacity(Duration::new(2, 500_000_000), 5);

    avg.insert(0, 5);
    let rate = avg.measurement(0).rate();
    assert_eq!(rate.amount, 5);
    assert_eq!(rate.nanos, 2_500_000_000);
    assert_eq!(avg.measurement(0).to_string(), "2.000");
}
