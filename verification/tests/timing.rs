use std::time::Duration;

use backend::game::AttemptTime;
use backend::validation::TimingValidator;

#[test]
fn test_valid_timing_within_tolerance() {
    let validator = TimingValidator::new(Duration::from_millis(100), Duration::from_millis(50));

    // Client says 5000ms, server measured 5050ms - should be valid
    assert!(validator.validate(AttemptTime(5000), Duration::from_millis(5050)));
}

#[test]
fn test_valid_timing_at_boundary() {
    let validator = TimingValidator::new(Duration::from_millis(100), Duration::from_millis(50));

    // Exactly at the 150ms boundary
    assert!(validator.validate(AttemptTime(5000), Duration::from_millis(5150)));
}

#[test]
fn test_invalid_timing_exceeds_tolerance() {
    let validator = TimingValidator::new(Duration::from_millis(100), Duration::from_millis(50));

    // Client says 5000ms, server measured 5200ms - exceeds 150ms tolerance
    assert!(!validator.validate(AttemptTime(5000), Duration::from_millis(5200)));
}

#[test]
fn timing_is_symmetric_between_client_and_server() {
    let validator = TimingValidator::new(Duration::from_millis(100), Duration::from_millis(50));
    // Client ahead of the server by the same margins
    assert!(validator.validate(AttemptTime(5150), Duration::from_millis(5000)));
    assert!(!validator.validate(AttemptTime(5151), Duration::from_millis(5000)));
    assert!(!validator.validate(AttemptTime(5000), Duration::from_millis(5151)));
}

#[test]
fn equal_times_are_valid_even_without_allowance() {
    let validator = TimingValidator::new(Duration::from_millis(0), Duration::from_millis(0));
    assert!(validator.validate(AttemptTime(1234), Duration::from_millis(1234)));
    assert!(!validator.validate(AttemptTime(1234), Duration::from_millis(1235)));
}

#[test]
fn larger_allowance_accepts_more() {
    let small = TimingValidator::new(Duration::from_millis(10), Duration::from_millis(0));
    let large = TimingValidator::new(Duration::from_millis(10), Duration::from_millis(90));
    assert!(!small.validate(AttemptTime(0), Duration::from_millis(100)));
    assert!(large.validate(AttemptTime(0), Duration::from_millis(100)));
}

#[test]
fn sub_millisecond_server_time_counts_whole_milliseconds() {
    let validator = TimingValidator::new(Duration::from_millis(0), Duration::from_millis(0));
    // 5 ms and 900 us is 5 whole milliseconds
    assert!(validator.validate(AttemptTime(5), Duration::from_micros(5900)));
}

#[test]
fn allowance_fits_in_64_bits() {
    assert!(TimingValidator::new(Duration::from_millis(100), Duration::from_millis(50)).allowance_fits());
    assert!(TimingValidator::new(Duration::from_millis(u64::MAX - 1), Duration::from_millis(1)).allowance_fits());
    assert!(!TimingValidator::new(Duration::from_millis(u64::MAX), Duration::from_millis(1)).allowance_fits());
}
