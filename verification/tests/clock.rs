use marta_cache::clock::{elapsed_nanos, join_nanos, TimeSpan};
use std::time::Instant;

#[test]
fn spans_are_counted_in_nanoseconds() {
    assert_eq!(TimeSpan::from_secs(0).as_nanos(), 0u128);
    assert_eq!(TimeSpan::from_secs(10).as_nanos(), 10_000_000_000u128);
    assert_eq!(TimeSpan::from_millis(10).as_nanos(), 10_000_000u128);
    assert_eq!(TimeSpan::from_millis(1_500).as_nanos(), 1_500_000_000u128);
    assert_eq!(TimeSpan::from_millis(999).as_nanos(), 999_000_000u128);
    assert_eq!(
        TimeSpan::from_secs(u64::MAX).as_nanos(),
        18_446_744_073_709_551_615_000_000_000u128
    );
    assert_eq!(
        TimeSpan::from_millis(u64::MAX).as_nanos(),
        18_446_744_073_709_551_615_000_000u128
    );
}

#[test]
fn seconds_and_nanoseconds_are_joined() {
    assert_eq!(join_nanos(0, 0), 0u128);
    assert_eq!(join_nanos(1, 5), 1_000_000_005u128);
    assert_eq!(join_nanos(u64::MAX, u32::MAX), 18_446_744_073_709_551_619_294_967_295u128);
}

#[test]
fn clock_does_not_run_backwards() {
    let origin = Instant::now();
    let first: u128 = elapsed_nanos(&origin);
    let second: u128 = elapsed_nanos(&origin);
    assert!(first <= second);
}
