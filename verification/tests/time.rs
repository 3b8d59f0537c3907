use tokio_osinterval::{Duration, TimePoint};

#[test]
fn durations_are_counted_in_nanoseconds() {
    assert_eq!(Duration::from_secs(2).as_nanos(), 2_000_000_000);
    assert_eq!(Duration::from_millis(2).as_nanos(), 2_000_000);
    assert_eq!(Duration::from_micros(2).as_nanos(), 2_000);
    assert_eq!(Duration::from_nanos(2).as_nanos(), 2);
    assert_eq!(Duration::new(1, 2).as_nanos(), 1_000_000_002);
    assert_eq!(Duration::new(1, 3_000_000_004), Duration::new(4, 4));
    assert_eq!(
        Duration::new(u64::MAX, 999_999_999).as_nanos(),
        std::time::Duration::MAX.as_nanos()
    );
}

#[test]
fn durations_split_into_seconds_and_nanoseconds() {
    let d = Duration::new(7, 123_456_789);
    assert_eq!(d.as_secs(), 7);
    assert_eq!(d.subsec_nanos(), 123_456_789);
    assert!(!d.is_zero());
    assert!(Duration::from_millis(0).is_zero());
    let longest = Duration::new(u64::MAX, 999_999_999);
    assert_eq!(longest.as_secs(), u64::MAX);
    assert_eq!(longest.subsec_nanos(), 999_999_999);
}

#[test]
fn points_move_by_durations() {
    let t = TimePoint::from_nanos(-5).unwrap();
    assert_eq!(t.checked_add(Duration::from_nanos(8)), TimePoint::from_nanos(3));
    assert_eq!(t.checked_sub(Duration::from_nanos(8)), TimePoint::from_nanos(-13));
    assert_eq!(t.as_nanos(), -5);
    assert_eq!(TimePoint::origin().as_nanos(), 0);
}

#[test]
fn points_have_a_first_and_a_last() {
    let last = TimePoint::saturating_from_nanos(u128::MAX);
    assert_eq!(last.as_nanos(), 9_223_372_036_854_775_807_999_999_999);
    assert_eq!(last.checked_add(Duration::from_nanos(1)), None);
    assert_eq!(TimePoint::from_nanos(last.as_nanos() + 1), None);
    let longest = Duration::new(u64::MAX, 999_999_999);
    let first = TimePoint::origin().checked_sub(longest).unwrap();
    assert_eq!(first.as_nanos(), -18_446_744_073_709_551_615_999_999_999);
    assert_eq!(first.checked_sub(Duration::from_nanos(1)), None);
    assert_eq!(TimePoint::from_nanos(first.as_nanos() - 1), None);
    assert_eq!(TimePoint::origin().saturating_duration_since(first), longest);
    assert_eq!(last.saturating_duration_since(first), longest);
    assert!(first.saturating_duration_since(last).is_zero());
    assert_eq!(TimePoint::saturating_from_nanos(12).as_nanos(), 12);
}

#[test]
fn time_since_a_later_point_is_zero() {
    let early = TimePoint::from_nanos(10).unwrap();
    let late = TimePoint::from_nanos(35).unwrap();
    assert_eq!(late.saturating_duration_since(early), Duration::from_nanos(25));
    assert!(early.saturating_duration_since(late).is_zero());
}
