use std::time::Duration;
use std::time::SystemTime;
use stress::clock::checked_millis;
use stress::clock::millis;
use stress::clock::millis_of_reading;

#[test]
fn millis_of_zero_is_zero() {
    assert_eq!(millis(Duration::new(0, 0)), 0);
}

#[test]
fn millis_counts_seconds_by_the_thousand() {
    assert_eq!(millis(Duration::from_secs(3)), 3_000);
}

#[test]
fn millis_truncates_to_whole_milliseconds() {
    assert_eq!(millis(Duration::new(1, 1_999_999)), 1_001);
    assert_eq!(millis(Duration::new(0, 999_999)), 0);
    assert_eq!(millis(Duration::new(0, 1_000_000)), 1);
    assert_eq!(millis(Duration::new(2, 999_999_999)), 2_999);
}

#[test]
fn millis_reaches_the_largest_value_that_fits() {
    let secs = u64::MAX / 1_000;
    assert_eq!(millis(Duration::new(secs, 615_999_999)), u64::MAX);
}

#[test]
fn checked_millis_agrees_with_millis_where_it_fits() {
    assert_eq!(checked_millis(Duration::new(1, 1_999_999)), Some(1_001));
    assert_eq!(checked_millis(Duration::new(0, 0)), Some(0));
    let secs = u64::MAX / 1_000;
    assert_eq!(checked_millis(Duration::new(secs, 615_000_000)), Some(u64::MAX));
}

#[test]
fn checked_millis_is_none_past_the_largest_value() {
    let secs = u64::MAX / 1_000;
    assert_eq!(checked_millis(Duration::new(secs, 616_000_000)), None);
    assert_eq!(checked_millis(Duration::new(secs + 1, 0)), None);
    assert_eq!(checked_millis(Duration::new(u64::MAX, 999_999_999)), None);
}

#[test]
fn a_forward_reading_counts_its_milliseconds() {
    let start = SystemTime::UNIX_EPOCH;
    let later = start + Duration::new(5, 250_000_000);
    assert_eq!(millis_of_reading(later.duration_since(start)), 5_250);
}

#[test]
fn a_backward_reading_counts_as_no_time() {
    let start = SystemTime::UNIX_EPOCH + Duration::from_secs(10);
    let earlier = SystemTime::UNIX_EPOCH;
    let reading = earlier.duration_since(start);
    assert!(reading.is_err());
    assert_eq!(millis_of_reading(reading), 0);
}

#[test]
fn an_overlong_reading_counts_as_the_largest_value() {
    assert_eq!(millis_of_reading(Ok(Duration::new(u64::MAX, 0))), u64::MAX);
}
