use tokio_osinterval::sys::timerfd::{
    add_duration, disarmed_spec, drain_again, duration_to_timespec, periodic_spec, timerfd_read,
    timerfd_read_of, Itimerspec, MonotonicAnchor, TimerfdRead, Timespec,
};
use tokio_osinterval::{Duration, TimePoint};

const ZERO: Timespec = Timespec { tv_sec: 0, tv_nsec: 0 };

#[test]
fn add_duration_no_carry() {
    let base = Timespec {
        tv_sec: 10,
        tv_nsec: 100,
    };
    let out = add_duration(base, Duration::new(2, 50));
    assert_eq!(out.tv_sec, 12);
    assert_eq!(out.tv_nsec, 150);
}

#[test]
fn add_duration_with_carry() {
    let base = Timespec {
        tv_sec: 10,
        tv_nsec: 999_999_900,
    };
    let out = add_duration(base, Duration::new(0, 200));
    assert_eq!(out.tv_sec, 11);
    assert_eq!(out.tv_nsec, 100);
}

#[test]
fn add_duration_zero_is_identity() {
    let base = Timespec {
        tv_sec: 42,
        tv_nsec: 1234,
    };
    let out = add_duration(base, Duration::from_secs(0));
    assert_eq!(out.tv_sec, base.tv_sec);
    assert_eq!(out.tv_nsec, base.tv_nsec);
}

#[test]
fn add_duration_saturates_the_seconds() {
    let base = Timespec {
        tv_sec: 1,
        tv_nsec: 999_999_999,
    };
    let out = add_duration(base, Duration::new(u64::MAX, 1));
    assert_eq!(out.tv_sec, i64::MAX);
    assert_eq!(out.tv_nsec, 0);
    let out = add_duration(base, Duration::new(i64::MAX as u64 - 2, 1));
    assert_eq!(out.tv_sec, i64::MAX);
    let before = Timespec {
        tv_sec: -3,
        tv_nsec: 0,
    };
    let out = add_duration(before, Duration::new(u64::MAX, 0));
    assert_eq!(out.tv_sec, i64::MAX - 3);
}

#[test]
fn timespec_of_a_duration() {
    assert_eq!(
        duration_to_timespec(Duration::new(3, 7)),
        Timespec { tv_sec: 3, tv_nsec: 7 }
    );
    assert_eq!(
        duration_to_timespec(Duration::new(u64::MAX, 7)),
        Timespec { tv_sec: i64::MAX, tv_nsec: 7 }
    );
}

#[test]
fn periodic_timer_first_fires_after_one_period() {
    let ts = Timespec { tv_sec: 0, tv_nsec: 20_000_000 };
    assert_eq!(
        periodic_spec(Duration::from_millis(20)),
        Itimerspec { it_interval: ts, it_value: ts }
    );
}

#[test]
fn disarming_programs_zero() {
    assert_eq!(disarmed_spec(), Itimerspec { it_interval: ZERO, it_value: ZERO });
}

#[test]
fn one_shot_timer_is_placed_on_the_kernel_clock() {
    let anchor = MonotonicAnchor {
        epoch: TimePoint::from_nanos(1_000).unwrap(),
        monotonic: Timespec { tv_sec: 500, tv_nsec: 999_999_000 },
    };
    let deadline = TimePoint::from_nanos(2_000_003_000).unwrap();
    let spec = anchor.one_shot_spec(deadline);
    assert_eq!(spec.it_interval, ZERO);
    assert_eq!(spec.it_value, Timespec { tv_sec: 503, tv_nsec: 1_000 });
}

#[test]
fn passed_deadline_is_placed_at_the_anchor() {
    let anchor = MonotonicAnchor {
        epoch: TimePoint::from_nanos(1_000).unwrap(),
        monotonic: Timespec { tv_sec: 500, tv_nsec: 5 },
    };
    let spec = anchor.one_shot_spec(TimePoint::from_nanos(-7).unwrap());
    assert_eq!(spec.it_value, anchor.monotonic);
}

#[test]
fn reads_of_the_counter() {
    assert_eq!(timerfd_read(8, 6u64.to_ne_bytes()), TimerfdRead::Expired(6));
    let count = 0x0102_0304_0506_0708u64;
    assert_eq!(timerfd_read(8, count.to_ne_bytes()), TimerfdRead::Expired(count));
    assert_eq!(timerfd_read(-1, [0; 8]), TimerfdRead::CallFailed);
    assert_eq!(timerfd_read(0, [0; 8]), TimerfdRead::Nothing);
    assert_eq!(timerfd_read(4, [0; 8]), TimerfdRead::Nothing);
    assert_eq!(timerfd_read_of(8, 3), TimerfdRead::Expired(3));
    assert_eq!(timerfd_read_of(9, 3), TimerfdRead::Nothing);
}

#[test]
fn timerfd_drain_repeats_after_a_signal_only() {
    assert!(drain_again(-1, true));
    assert!(!drain_again(-1, false));
    assert!(!drain_again(8, false));
    assert!(!drain_again(8, true));
}

#[test]
fn longer_durations_give_later_times() {
    let base = Timespec { tv_sec: 5, tv_nsec: 900_000_000 };
    let mut last = base;
    for nanos in [1, 99_999_999, 100_000_000, 100_000_001, 5_000_000_000] {
        let next = add_duration(base, Duration::from_nanos(nanos));
        assert!((next.tv_sec, next.tv_nsec) > (last.tv_sec, last.tv_nsec));
        assert!((0..1_000_000_000).contains(&next.tv_nsec));
        last = next;
    }
}

#[test]
fn counter_with_a_set_byte_is_not_zero() {
    for i in 0..8 {
        let mut bytes = [0u8; 8];
        bytes[i] = 1;
        assert!(matches!(timerfd_read(8, bytes), TimerfdRead::Expired(n) if n >= 1));
    }
}

#[test]
fn arming_is_not_taken_for_disarming() {
    let anchor = MonotonicAnchor {
        epoch: TimePoint::from_nanos(1_000).unwrap(),
        monotonic: Timespec { tv_sec: 0, tv_nsec: 1 },
    };
    for nanos in [-5, 1_000, 1_001, 1_000_000_999] {
        let spec = anchor.one_shot_spec(TimePoint::from_nanos(nanos).unwrap());
        assert_ne!(spec.it_value, disarmed_spec().it_value);
    }
}

#[test]
fn timerfd_drain_reads_once_more_than_it_is_interrupted() {
    let outcomes = [(-1, true), (-1, true), (-1, true), (-1, false), (8, false)];
    let mut reads = 0;
    for (rc, interrupted) in outcomes {
        reads += 1;
        if !drain_again(rc, interrupted) {
            break;
        }
    }
    assert_eq!(reads, 4);
}
