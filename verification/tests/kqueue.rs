use tokio_osinterval::sys::kqueue::{
    clamp_i64, drain_again, duration_to_timer, one_shot_event, Change, KqueueEvent, OneShotEvent,
    Platform, TimerUnit,
};
use tokio_osinterval::{Clock, Duration, TimePoint};

const NOTE_NSECONDS: u32 = 0x4;

const NANOS: TimerUnit = TimerUnit::Nanoseconds {
    fflags: NOTE_NSECONDS,
};

const UNITS: [TimerUnit; 2] = [NANOS, TimerUnit::Milliseconds];

fn platform(unit: TimerUnit) -> Platform {
    Platform {
        ev_add: 0x1,
        ev_oneshot: 0x10,
        ev_delete: 0x2,
        ev_error: 0x4000,
        extra_fflags: 0x20,
        unit,
    }
}

#[test]
fn clamp_i64_within_range() {
    assert_eq!(clamp_i64(0), 0);
    assert_eq!(clamp_i64(1_000_000), 1_000_000);
    assert_eq!(clamp_i64(i64::MAX as u128), i64::MAX);
}

#[test]
fn clamp_i64_saturates() {
    assert_eq!(clamp_i64(i64::MAX as u128 + 1), i64::MAX);
    assert_eq!(clamp_i64(u128::MAX), i64::MAX);
}

#[test]
fn duration_to_timer_zero_is_one_unit() {
    for unit in UNITS {
        let (data, _) = duration_to_timer(Duration::from_nanos(0), unit);
        assert_eq!(data, 1);
    }
}

#[test]
fn duration_to_timer_uses_expected_unit() {
    // 2.5 ms → 2_500_000 ns (NOTE_NSECONDS) or 3 ms (rounded up).
    let (data, fflags) = duration_to_timer(Duration::from_micros(2_500), NANOS);
    assert_eq!(fflags, NOTE_NSECONDS);
    assert_eq!(data, 2_500_000);
    let (data, fflags) = duration_to_timer(Duration::from_micros(2_500), TimerUnit::Milliseconds);
    assert_eq!(fflags, 0);
    assert_eq!(data, 3);
}

#[test]
fn duration_to_timer_rounds_ms_up() {
    // 1 ns of input must round to 1 unit regardless of which unit is in use.
    for unit in UNITS {
        let (data, _) = duration_to_timer(Duration::from_nanos(1), unit);
        assert_eq!(data, 1);
    }
}

#[test]
fn duration_to_timer_clamps_huge_durations() {
    for unit in UNITS {
        let (data, _) = duration_to_timer(Duration::new(u64::MAX, 999_999_999), unit);
        assert_eq!(data, i64::MAX);
    }
}

#[test]
fn whole_milliseconds_are_kept() {
    let (data, _) = duration_to_timer(Duration::from_millis(7), TimerUnit::Milliseconds);
    assert_eq!(data, 7);
}

#[test]
fn one_shot_change_arms_for_the_rest_of_the_time() {
    let now = TimePoint::from_nanos(1_000).unwrap();
    let deadline = TimePoint::from_nanos(3_500).unwrap();
    assert_eq!(
        platform(NANOS).one_shot_change_from(now, deadline),
        Change { ident: 1, flags: 0x11, fflags: 0x24, data: 2_500 }
    );
    assert_eq!(
        platform(TimerUnit::Milliseconds).one_shot_change_from(now, deadline),
        Change { ident: 1, flags: 0x11, fflags: 0x20, data: 1 }
    );
    assert_eq!(platform(NANOS).one_shot_change_from(deadline, now).data, 1);
}

#[test]
fn one_shot_change_reads_the_clock() {
    let clock = Clock::start();
    let deadline = TimePoint::origin().checked_add(Duration::from_secs(3_600)).unwrap();
    let change = platform(NANOS).one_shot_change(&clock, deadline);
    assert!(change.data <= 3_600_000_000_000);
    assert!(change.data > 3_000_000_000_000);
    assert_eq!(platform(NANOS).one_shot_change(&clock, TimePoint::origin()).data, 1);
}

#[test]
fn periodic_change_has_no_one_shot_flag() {
    assert_eq!(
        platform(NANOS).periodic_change(Duration::from_millis(20)),
        Change { ident: 1, flags: 0x1, fflags: 0x24, data: 20_000_000 }
    );
}

#[test]
fn delete_change_removes_the_timer() {
    assert_eq!(
        platform(NANOS).delete_change(),
        Change { ident: 1, flags: 0x2, fflags: 0, data: 0 }
    );
}

#[test]
fn events_of_a_periodic_timer() {
    let p = platform(NANOS);
    assert_eq!(p.periodic_event(-1, 0, 0), KqueueEvent::CallFailed);
    assert_eq!(p.periodic_event(0, 0, 0), KqueueEvent::Nothing);
    assert_eq!(p.periodic_event(1, 0x11, 1), KqueueEvent::Expired(1));
    assert_eq!(p.periodic_event(1, 0x11, 6), KqueueEvent::Expired(6));
    assert_eq!(p.periodic_event(1, 0x11, i64::MAX), KqueueEvent::Expired(i64::MAX as u64));
    assert_eq!(p.periodic_event(1, 0x4011, 22), KqueueEvent::TimerFailed(22));
}

#[test]
fn events_of_a_one_shot_timer() {
    assert_eq!(one_shot_event(-1), OneShotEvent::CallFailed);
    assert_eq!(one_shot_event(0), OneShotEvent::Nothing);
    assert_eq!(one_shot_event(1), OneShotEvent::Expired);
    assert_eq!(one_shot_event(4), OneShotEvent::Expired);
}

#[test]
fn kqueue_drain_repeats_while_the_buffer_fills() {
    assert!(drain_again(-1, true, 4));
    assert!(!drain_again(-1, false, 4));
    assert!(!drain_again(0, false, 4));
    assert!(!drain_again(3, false, 4));
    assert!(drain_again(4, false, 4));
}

#[test]
fn milliseconds_never_fall_short() {
    let (data, _) = duration_to_timer(Duration::from_nanos(1_000_001), TimerUnit::Milliseconds);
    assert_eq!(data, 2);
    let (data, _) = duration_to_timer(Duration::from_nanos(999_999), TimerUnit::Milliseconds);
    assert_eq!(data, 1);
}

#[test]
fn kqueue_drain_leaves_nothing() {
    for (queued, calls) in [(0, 1), (3, 1), (4, 2), (9, 3)] {
        let mut left: i32 = queued;
        let mut made = 0;
        loop {
            let rc = left.min(4);
            left -= rc;
            made += 1;
            if !drain_again(rc, false, 4) {
                break;
            }
        }
        assert_eq!(left, 0);
        assert_eq!(made, calls);
    }
}

#[test]
fn span_of_all_time_is_clamped() {
    let first = TimePoint::from_nanos(-18_446_744_073_709_551_615_999_999_999).unwrap();
    let last = TimePoint::saturating_from_nanos(u128::MAX);
    assert_eq!(platform(NANOS).one_shot_change_from(first, last).data, i64::MAX);
}
