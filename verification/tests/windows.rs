use tokio_osinterval::sys::windows::{
    clamp_to_i64, due_time_at, due_time_from, filetime_at, filetime_from, high_res_next,
    relative_due_time, relative_filetime, FileTime, HighResAction, HighResStage, State,
};
use tokio_osinterval::{Clock, Duration, TimePoint};

/// Reassemble a `FileTime` into the same i64 that a waitable timer would receive.
fn filetime_to_i64(ft: FileTime) -> i64 {
    ((u64::from(ft.high_date_time) << 32) | u64::from(ft.low_date_time)) as i64
}

#[test]
fn relative_due_time_zero_is_minus_one() {
    // Zero must floor to 1 hundred-ns tick, then negate, so that the
    // value is strictly negative (relative) and never zero/positive
    // (which Windows would interpret as an absolute FILETIME).
    assert_eq!(relative_due_time(Duration::from_nanos(0)), -1);
}

#[test]
fn relative_due_time_sub_hundred_ns_floors_to_minus_one() {
    // 50 ns is < 100 ns, so hundred_ns == 0 → floored to 1 → -1.
    assert_eq!(relative_due_time(Duration::from_nanos(50)), -1);
}

#[test]
fn relative_due_time_one_hundred_ns_unit() {
    assert_eq!(relative_due_time(Duration::from_nanos(100)), -1);
    assert_eq!(relative_due_time(Duration::from_nanos(200)), -2);
}

#[test]
fn relative_due_time_one_millisecond() {
    // 1 ms = 1_000_000 ns = 10_000 hundred-ns units.
    assert_eq!(relative_due_time(Duration::from_millis(1)), -10_000);
}

#[test]
fn relative_due_time_one_second() {
    // 1 s = 10_000_000 hundred-ns units.
    assert_eq!(relative_due_time(Duration::from_secs(1)), -10_000_000);
}

#[test]
fn relative_due_time_is_always_negative() {
    for d in [
        Duration::from_nanos(0),
        Duration::from_nanos(1),
        Duration::from_nanos(99),
        Duration::from_nanos(100),
        Duration::from_micros(1),
        Duration::from_millis(1),
        Duration::from_secs(1),
        Duration::from_secs(60 * 60 * 24),
    ] {
        assert!(
            relative_due_time(d) < 0,
            "relative_due_time({d:?}) was not negative",
        );
    }
}

#[test]
fn relative_due_time_clamps_huge_durations() {
    // Far beyond i64::MAX hundred-ns units: must clamp to
    // -i64::MAX (wrapping_neg of i64::MAX), never overflow or
    // become non-negative.
    let huge = Duration::new(u64::MAX, 999_999_999);
    let v = relative_due_time(huge);
    assert_eq!(v, (i64::MAX).wrapping_neg());
    assert!(v < 0);
}

#[test]
fn relative_filetime_matches_relative_due_time() {
    for d in [
        Duration::from_nanos(0),
        Duration::from_nanos(50),
        Duration::from_nanos(100),
        Duration::from_micros(1),
        Duration::from_millis(1),
        Duration::from_millis(250),
        Duration::from_secs(1),
        Duration::from_secs(3600),
    ] {
        let ft = relative_filetime(d);
        assert_eq!(
            filetime_to_i64(ft),
            relative_due_time(d),
            "FILETIME for {d:?} did not round-trip to the same i64",
        );
    }
}

#[test]
fn relative_filetime_one_millisecond_split() {
    // -10_000 as u64 = 0xFFFF_FFFF_FFFF_D8F0
    let ft = relative_filetime(Duration::from_millis(1));
    assert_eq!(ft.high_date_time, 0xFFFF_FFFF);
    assert_eq!(ft.low_date_time, 0xFFFF_D8F0);
}

#[test]
fn relative_filetime_zero_is_minus_one_split() {
    // -1 as u64 = 0xFFFF_FFFF_FFFF_FFFF
    let ft = relative_filetime(Duration::from_nanos(0));
    assert_eq!(ft.high_date_time, 0xFFFF_FFFF);
    assert_eq!(ft.low_date_time, 0xFFFF_FFFF);
}

#[test]
fn clamp_to_i64_stops_at_the_greatest() {
    assert_eq!(clamp_to_i64(0), 0);
    assert_eq!(clamp_to_i64(i64::MAX as u128), i64::MAX);
    assert_eq!(clamp_to_i64(i64::MAX as u128 + 1), i64::MAX);
}

#[test]
fn due_time_is_measured_from_now() {
    let now = TimePoint::from_nanos(1_000).unwrap();
    let deadline = TimePoint::from_nanos(3_550).unwrap();
    assert_eq!(due_time_from(now, deadline), -25);
    assert_eq!(filetime_to_i64(filetime_from(now, deadline)), -25);
    assert_eq!(due_time_from(deadline, now), -1);
}

#[test]
fn due_time_reads_the_clock() {
    let clock = Clock::start();
    let deadline = TimePoint::origin().checked_add(Duration::from_secs(3_600)).unwrap();
    let due = due_time_at(&clock, deadline);
    assert!(due >= -36_000_000_000);
    assert!(due < -30_000_000_000);
    assert_eq!(due_time_at(&clock, TimePoint::origin()), -1);
    assert_eq!(filetime_to_i64(filetime_at(&clock, TimePoint::origin())), -1);
}

#[test]
fn expiration_wakes_the_registered_task() {
    let mut state: State<&str> = State::new();
    assert!(!state.poll("first", false));
    assert_eq!(state.registered(), Some(&"first"));
    assert_eq!(state.fire(), Some("first"));
    assert_eq!(state.registered(), None);
    assert!(state.poll("first", false));
    assert!(!state.poll("second", false));
    assert_eq!(state.registered(), Some(&"second"));
}

#[test]
fn expiration_before_the_poll_is_observed_once() {
    let mut state: State<&str> = State::new();
    assert_eq!(state.fire(), None);
    assert!(state.poll("task", false));
    assert!(!state.poll("task", false));
}

#[test]
fn same_waker_is_kept_and_another_replaced() {
    let mut state: State<u32> = State::new();
    assert!(!state.poll(1, true));
    assert_eq!(state.registered(), Some(&1));
    assert!(!state.poll(2, true));
    assert_eq!(state.registered(), Some(&1));
    assert!(!state.poll(3, false));
    assert_eq!(state.registered(), Some(&3));
}

#[test]
fn reset_clears_expiration_and_waker() {
    let mut state: State<u32> = State::new();
    assert_eq!(state.fire(), None);
    state.reset();
    assert!(!state.poll(1, false));
    state.reset();
    assert_eq!(state.registered(), None);
    assert_eq!(state.fire(), None);
}

#[test]
fn high_resolution_setup_falls_back() {
    assert_eq!(high_res_next(HighResStage::Probe, true), HighResAction::Continue(HighResStage::CreateTimer));
    assert_eq!(high_res_next(HighResStage::Probe, false), HighResAction::UsePool);
    assert_eq!(high_res_next(HighResStage::CreateTimer, true), HighResAction::Continue(HighResStage::CreateWait));
    assert_eq!(high_res_next(HighResStage::CreateTimer, false), HighResAction::UsePool);
    assert_eq!(high_res_next(HighResStage::CreateWait, true), HighResAction::Finish);
    assert_eq!(high_res_next(HighResStage::CreateWait, false), HighResAction::CloseTimerAndUsePool);
}

#[test]
fn relative_due_time_drops_part_of_an_interval() {
    assert_eq!(relative_due_time(Duration::from_nanos(199)), -1);
    assert_eq!(relative_due_time(Duration::from_nanos(299)), -2);
}

#[test]
fn timer_that_never_fires_stays_pending() {
    let mut state: State<u32> = State::new();
    for n in 0..5 {
        assert!(!state.poll(n, n > 0));
    }
    state.reset();
    state.reset();
    for n in 0..5 {
        assert!(!state.poll(n, n > 0));
    }
}

#[test]
fn arming_anew_drops_an_unobserved_expiration() {
    let mut state: State<u32> = State::new();
    assert_eq!(state.fire(), None);
    state.reset();
    assert!(!state.poll(1, false));
    assert_eq!(state.fire(), Some(1));
    assert!(state.poll(1, false));
    for _ in 0..5 {
        assert!(!state.poll(1, true));
    }
}
