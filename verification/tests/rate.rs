use running_average::span::{duration_of, nanos_of};
use running_average::{Rate, ToRate};
use std::time::Duration;

fn text(amount: i64, nanos: u128) -> String {
    Rate { amount, nanos }.to_string()
}

#[test]
fn rate_has_three_decimal_places() {
    assert_eq!(text(20, 8_000_000_000), "2.500");
    assert_eq!(text(40, 4_000_000_000), "10.000");
    assert_eq!(text(0, 1_000_000_000), "0.000");
    assert_eq!(text(1, 1_000_000_000), "1.000");
    assert_eq!(text(1, 3_000_000_000), "0.333");
    assert_eq!(text(2, 3_000_000_000), "0.667");
    assert_eq!(text(123_456, 1_000), "123456000000.000");
    assert_eq!(text(1, 1), "1000000000.000");
}

#[test]
fn rate_rounds_to_the_nearest_and_ties_to_even() {
    // 1/16 = 0.0625, 3/16 = 0.1875, 5/16 = 0.3125, 7/16 = 0.4375
    assert_eq!(text(1, 16_000_000_000), "0.062");
    assert_eq!(text(3, 16_000_000_000), "0.188");
    assert_eq!(text(5, 16_000_000_000), "0.312");
    assert_eq!(text(7, 16_000_000_000), "0.438");
    assert_eq!(text(1, 2_000_000_000_000), "0.000");
    assert_eq!(text(3, 2_000_000_000_000), "0.002");
    assert_eq!(text(9_999, 10_000_000_000_000), "1.000");
    assert_eq!(text(1, 2_000_000_000_001), "0.000");
    assert_eq!(text(1, 1_999_999_999_999), "0.001");
}

#[test]
fn rate_of_a_negative_amount_has_a_sign() {
    assert_eq!(text(-20, 8_000_000_000), "-2.500");
    assert_eq!(text(-1, 16_000_000_000), "-0.062");
    assert_eq!(text(-1, 8_000_000_000_000), "-0.000");
    assert_eq!(text(i64::MIN, 1_000_000_000), "-9223372036854775808.000");
    assert_eq!(text(i64::MAX, 1_000_000_000), "9223372036854775807.000");
    assert_eq!(text(i64::MAX, 1), "9223372036854775807000000000.000");
}

#[test]
fn rate_over_no_time_is_not_a_number() {
    assert_eq!(text(5, 0), "inf");
    assert_eq!(text(-5, 0), "-inf");
    assert_eq!(text(0, 0), "NaN");
}

#[test]
fn long_text_has_the_amount_and_two_decimal_places() {
    assert_eq!(Rate { amount: 20, nanos: 8_000_000_000 }.to_long_string(), "20 (2.50/s)");
    assert_eq!(Rate { amount: 40, nanos: 4_000_000_000 }.to_long_string(), "40 (10.00/s)");
    assert_eq!(Rate { amount: 0, nanos: 4_000_000_000 }.to_long_string(), "0 (0.00/s)");
    assert_eq!(Rate { amount: -20, nanos: 8_000_000_000 }.to_long_string(), "-20 (-2.50/s)");
    // 1/8 = 0.125, 3/8 = 0.375
    assert_eq!(Rate { amount: 1, nanos: 8_000_000_000 }.to_long_string(), "1 (0.12/s)");
    assert_eq!(Rate { amount: 3, nanos: 8_000_000_000 }.to_long_string(), "3 (0.38/s)");
    assert_eq!(Rate { amount: 7, nanos: 0 }.to_long_string(), "7 (inf/s)");
    assert_eq!(Rate { amount: -7, nanos: 0 }.to_long_string(), "-7 (-inf/s)");
    assert_eq!(Rate { amount: 0, nanos: 0 }.to_long_string(), "0 (NaN/s)");
    assert_eq!(
        Rate { amount: i64::MIN, nanos: 1 }.to_long_string(),
        "-9223372036854775808 (-9223372036854775808000000000.00/s)"
    );
}

#[test]
fn to_rate_keeps_amount_and_window() {
    let rate = 20i32.to_rate(Duration::from_secs(8));
    assert_eq!(rate.amount, 20);
    assert_eq!(rate.nanos, 8_000_000_000);

    let rate = (-3i32).to_rate(Duration::new(0, 1));
    assert_eq!(rate.amount, -3);
    assert_eq!(rate.nanos, 1);

    let rate = u32::MAX.to_rate(Duration::new(u64::MAX, 999_999_999));
    assert_eq!(rate.amount, 4_294_967_295);
    assert_eq!(rate.nanos, 18_446_744_073_709_551_615_999_999_999);
}

#[test]
fn durations_are_counted_in_nanoseconds() {
    assert_eq!(nanos_of(Duration::new(0, 0)), 0);
    assert_eq!(nanos_of(Duration::new(3, 7)), 3_000_000_007);
    assert_eq!(nanos_of(Duration::new(0, 999_999_999)), 999_999_999);
    assert_eq!(nanos_of(Duration::MAX), 18_446_744_073_709_551_615_999_999_999);

    assert_eq!(duration_of(0), Duration::new(0, 0));
    assert_eq!(duration_of(1_500_000_000), Duration::new(1, 500_000_000));
    assert_eq!(duration_of(999_999_999), Duration::new(0, 999_999_999));
    assert_eq!(duration_of(18_446_744_073_709_551_615_999_999_999), Duration::MAX);
}
