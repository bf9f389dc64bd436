//! Spans and points in time.

use autospot::time::{Duration, Instant};

#[test]
fn spans_count_whole_seconds() {
    assert_eq!(Duration::from_secs(75).as_secs(), 75);
    assert_eq!(Duration::new(75, 999_999_999).as_secs(), 75);
    assert_eq!(Duration::new(75, 999_999_999).subsec_nanos(), 999_999_999);
    assert_eq!(Duration::from_secs(u64::MAX).as_secs(), u64::MAX);
}

#[test]
fn spans_compare_and_subtract() {
    let short = Duration::new(1, 5);
    let long = Duration::from_secs(2);
    assert!(short.shorter_than(&long));
    assert!(!long.shorter_than(&short));
    assert!(!long.shorter_than(&long));
    assert_eq!(long.saturating_sub(short), Duration::new(0, 999_999_995));
    assert_eq!(short.saturating_sub(long), Duration::from_secs(0));
}

#[test]
fn points_in_time_are_told_apart() {
    let t = Instant::at(Duration::from_secs(10));
    let u = t.plus(Duration::from_secs(3));
    assert!(t.before(&u));
    assert!(!u.before(&t));
    assert_eq!(u.saturating_duration_since(t), Duration::from_secs(3));
    assert_eq!(t.saturating_duration_since(u), Duration::from_secs(0));
    assert_eq!(t.checked_add(Duration::from_secs(3)), Some(u));
}

#[test]
fn the_clock_ends_somewhere() {
    let end = Instant::at(Duration::new(u64::MAX, 999_999_999));
    assert_eq!(end.checked_add(Duration::from_secs(0)), Some(end));
    assert_eq!(end.checked_add(Duration::new(0, 1)), None);
}
