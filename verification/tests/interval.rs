use tokio_osinterval::interval::{Disarm, PollAction, PollEvent};
use tokio_osinterval::{
    interval, interval_at, Clock, Duration, MissedTickBehavior, OsInterval, TimePoint,
};

const POLLED: PollEvent = PollEvent::Polled;
const EXPIRED: PollEvent = PollEvent::TimerExpired;
const PENDING: PollEvent = PollEvent::TimerPending;

fn nanos(n: i128) -> TimePoint {
    TimePoint::from_nanos(n).unwrap()
}

fn millis(n: i128) -> TimePoint {
    nanos(n * 1_000_000)
}

/// The tick of `deadline` is delivered; the timer is not armed.
fn tick(deadline: TimePoint) -> Option<PollAction> {
    Some(PollAction::Ready { deadline, disarm: None })
}

/// The tick of `deadline` is delivered once the timer has been disarmed.
fn tick_and_disarm(deadline: TimePoint) -> Option<PollAction> {
    Some(PollAction::Ready { deadline, disarm: Some(Disarm) })
}

/// An interval with a period of 100 ms and its first tick at 1000 ms.
fn hundred_from_thousand() -> OsInterval {
    interval_at(Clock::start(), millis(1_000), Duration::from_millis(100))
}

#[test]
fn first_tick_is_immediate() {
    let mut iv = interval(Duration::from_millis(50));
    assert_eq!(iv.poll_tick(POLLED), tick(TimePoint::origin()));
}

#[test]
fn interval_at_in_future_delays_first_tick() {
    let clock = Clock::start();
    let when = clock.now().checked_add(Duration::from_secs(60)).unwrap();
    let mut iv = interval_at(clock, when, Duration::from_millis(50));
    assert_eq!(iv.poll_tick(POLLED), Some(PollAction::AwaitTimer { arm: Some(when) }));
    assert_eq!(iv.poll_tick(PENDING), Some(PollAction::Pending));
    assert_eq!(iv.next_deadline(), when);
}

#[test]
fn reset_immediately_fires_now() {
    let mut iv = interval(Duration::from_secs(60));
    assert!(matches!(iv.poll_tick(POLLED), Some(PollAction::Ready { .. })));
    assert!(matches!(iv.poll_tick(POLLED), Some(PollAction::AwaitTimer { arm: Some(_) })));
    assert_eq!(iv.reset_immediately(), Disarm);
    assert!(matches!(iv.poll_tick(POLLED), Some(PollAction::Ready { .. })));
}

#[test]
fn missed_tick_behavior_roundtrip() {
    let mut iv = interval(Duration::from_millis(10));
    assert_eq!(iv.missed_tick_behavior(), MissedTickBehavior::Burst);
    iv.set_missed_tick_behavior(MissedTickBehavior::Skip);
    assert_eq!(iv.missed_tick_behavior(), MissedTickBehavior::Skip);
    assert_eq!(iv.period(), Duration::from_millis(10));
}

#[test]
fn basic_ticks_at_period() {
    let mut iv = interval_at(Clock::start(), millis(0), Duration::from_millis(50));
    assert_eq!(iv.poll_tick_at(POLLED, millis(0)), tick(millis(0)));
    assert_eq!(
        iv.poll_tick_at(POLLED, millis(1)),
        Some(PollAction::AwaitTimer { arm: Some(millis(50)) })
    );
    assert_eq!(iv.poll_tick_at(EXPIRED, millis(50)), tick(millis(50)));
    assert_eq!(
        iv.poll_tick_at(POLLED, millis(51)),
        Some(PollAction::AwaitTimer { arm: Some(millis(100)) })
    );
    assert_eq!(iv.poll_tick_at(EXPIRED, millis(100)), tick(millis(100)));
    assert_eq!(iv.next_deadline(), millis(150));
}

#[test]
fn timer_is_armed_once_per_deadline() {
    let mut iv = hundred_from_thousand();
    assert_eq!(
        iv.poll_tick_at(POLLED, millis(10)),
        Some(PollAction::AwaitTimer { arm: Some(millis(1_000)) })
    );
    assert_eq!(iv.poll_tick_at(POLLED, millis(20)), Some(PollAction::AwaitTimer { arm: None }));
    assert_eq!(iv.poll_tick_at(PENDING, millis(30)), Some(PollAction::Pending));
    assert_eq!(iv.poll_tick_at(POLLED, millis(999)), Some(PollAction::AwaitTimer { arm: None }));
    assert_eq!(iv.next_deadline(), millis(1_000));
}

#[test]
fn late_poll_delivers_without_the_timer() {
    let mut iv = hundred_from_thousand();
    let _ = iv.poll_tick_at(POLLED, millis(10));
    assert_eq!(iv.poll_tick_at(POLLED, millis(1_000)), tick_and_disarm(millis(1_000)));
    assert_eq!(
        iv.poll_tick_at(POLLED, millis(1_001)),
        Some(PollAction::AwaitTimer { arm: Some(millis(1_100)) })
    );
}

#[test]
fn timer_that_expires_early_still_ticks() {
    let mut iv = hundred_from_thousand();
    iv.set_missed_tick_behavior(MissedTickBehavior::Delay);
    let _ = iv.poll_tick_at(POLLED, millis(10));
    assert_eq!(iv.poll_tick_at(EXPIRED, millis(990)), tick(millis(1_000)));
    assert_eq!(iv.next_deadline(), millis(1_100));
}

#[test]
fn burst_delivers_missed_ticks_until_caught_up() {
    let mut iv = hundred_from_thousand();
    for deadline in [1_000, 1_100, 1_200, 1_300] {
        assert_eq!(iv.poll_tick_at(POLLED, millis(1_350)), tick(millis(deadline)));
    }
    assert_eq!(
        iv.poll_tick_at(POLLED, millis(1_350)),
        Some(PollAction::AwaitTimer { arm: Some(millis(1_400)) })
    );
}

#[test]
fn skip_drops_missed_ticks() {
    let mut iv = hundred_from_thousand();
    iv.set_missed_tick_behavior(MissedTickBehavior::Skip);
    assert_eq!(iv.poll_tick_at(POLLED, millis(1_350)), tick(millis(1_000)));
    assert_eq!(
        iv.poll_tick_at(POLLED, millis(1_350)),
        Some(PollAction::AwaitTimer { arm: Some(millis(1_400)) })
    );
}

#[test]
fn delay_restarts_from_the_late_tick() {
    let mut iv = hundred_from_thousand();
    iv.set_missed_tick_behavior(MissedTickBehavior::Delay);
    assert_eq!(iv.poll_tick_at(POLLED, millis(1_350)), tick(millis(1_000)));
    assert_eq!(
        iv.poll_tick_at(POLLED, millis(1_350)),
        Some(PollAction::AwaitTimer { arm: Some(millis(1_450)) })
    );
}

#[test]
fn reset_is_armed_on_the_next_poll() {
    let mut iv = hundred_from_thousand();
    let _ = iv.poll_tick_at(POLLED, millis(10));
    assert_eq!(iv.reset_at(millis(5_000)), Disarm);
    assert_eq!(iv.next_deadline(), millis(5_000));
    assert_eq!(
        iv.poll_tick_at(POLLED, millis(20)),
        Some(PollAction::AwaitTimer { arm: Some(millis(5_000)) })
    );
    assert_eq!(iv.reset_at(millis(15)), Disarm);
    assert_eq!(iv.poll_tick_at(POLLED, millis(20)), tick(millis(15)));
}

#[test]
fn reset_to_the_same_deadline_arms_again() {
    let mut iv = hundred_from_thousand();
    let _ = iv.poll_tick_at(POLLED, millis(10));
    let _ = iv.reset_at(millis(1_000));
    assert_eq!(
        iv.poll_tick_at(POLLED, millis(20)),
        Some(PollAction::AwaitTimer { arm: Some(millis(1_000)) })
    );
}

#[test]
fn last_of_several_resets_counts() {
    let mut iv = hundred_from_thousand();
    let _ = iv.reset_at(millis(5));
    let _ = iv.reset_at(millis(7_000));
    assert_eq!(
        iv.poll_tick_at(POLLED, millis(6)),
        Some(PollAction::AwaitTimer { arm: Some(millis(7_000)) })
    );
}

#[test]
fn waiting_keeps_the_deadline() {
    let mut iv = hundred_from_thousand();
    for now in [10, 20, 30] {
        let _ = iv.poll_tick_at(POLLED, millis(now));
        assert_eq!(iv.poll_tick_at(PENDING, millis(now)), Some(PollAction::Pending));
        assert_eq!(iv.next_deadline(), millis(1_000));
    }
    assert_eq!(iv.poll_tick_at(EXPIRED, millis(1_003)), tick(millis(1_000)));
    assert_eq!(iv.next_deadline(), millis(1_100));
}

#[test]
fn sub_millisecond_period_ticks() {
    let mut iv = interval_at(Clock::start(), nanos(0), Duration::from_micros(500));
    for n in 0..50 {
        let due = nanos(n * 500_000);
        assert_eq!(iv.poll_tick_at(POLLED, due), tick(due));
    }
    assert_eq!(iv.next_deadline(), millis(25));
}

#[test]
fn behavior_can_change_between_ticks() {
    let mut iv = hundred_from_thousand();
    assert_eq!(iv.poll_tick_at(POLLED, millis(1_350)), tick(millis(1_000)));
    iv.set_missed_tick_behavior(MissedTickBehavior::Skip);
    assert_eq!(iv.next_deadline(), millis(1_100));
    assert_eq!(iv.poll_tick_at(POLLED, millis(1_350)), tick(millis(1_100)));
    assert_eq!(iv.next_deadline(), millis(1_400));
}

#[test]
fn reset_after_counts_from_now() {
    let mut iv = hundred_from_thousand();
    assert_eq!(iv.reset_after_from(millis(40), Duration::from_millis(7)), Some(Disarm));
    assert_eq!(iv.next_deadline(), millis(47));
    assert_eq!(iv.period(), Duration::from_millis(100));

    let clock = iv.clock();
    let before = clock.now();
    assert_eq!(iv.reset_after(Duration::from_secs(5)), Some(Disarm));
    let after = clock.now();
    assert!(iv.next_deadline() >= before.checked_add(Duration::from_secs(5)).unwrap());
    assert!(iv.next_deadline() <= after.checked_add(Duration::from_secs(5)).unwrap());
}

#[test]
fn reset_counts_one_period_from_now() {
    let mut iv = interval(Duration::from_secs(30));
    let clock = iv.clock();
    let before = clock.now();
    assert_eq!(iv.reset(), Some(Disarm));
    let after = clock.now();
    assert!(iv.next_deadline() >= before.checked_add(Duration::from_secs(30)).unwrap());
    assert!(iv.next_deadline() <= after.checked_add(Duration::from_secs(30)).unwrap());
}

#[test]
fn unrepresentable_deadlines_change_nothing() {
    let last = TimePoint::saturating_from_nanos(u128::MAX);
    let mut iv = interval_at(Clock::start(), last, Duration::from_nanos(1));
    assert_eq!(iv.poll_tick_at(POLLED, last), None);
    assert_eq!(iv.poll_tick_at(EXPIRED, last), None);
    assert_eq!(iv.next_deadline(), last);
    assert_eq!(iv.reset_after_from(last, Duration::from_nanos(1)), None);
    assert_eq!(iv.next_deadline(), last);
    let forever = Duration::new(u64::MAX, 999_999_999);
    assert_eq!(iv.reset_after(forever), None);
    assert_eq!(iv.next_deadline(), last);
    let mut slow = interval(forever);
    assert_eq!(slow.reset(), None);
    assert_eq!(slow.poll_tick(POLLED), None);
    assert_eq!(slow.next_deadline(), TimePoint::origin());
}

#[test]
fn clock_moves_forward_from_its_origin() {
    let clock = Clock::start();
    let mut last = clock.now();
    assert!(last >= TimePoint::origin());
    let mut moved = false;
    for _ in 0..10_000_000 {
        let now = clock.now();
        assert!(now >= last);
        last = now;
        if now > TimePoint::origin() {
            moved = true;
            break;
        }
    }
    assert!(moved);
    assert!(last.saturating_duration_since(TimePoint::origin()) < Duration::from_secs(3_600));
}

#[test]
fn late_poll_disarms_the_timer_it_overtakes() {
    let mut iv = hundred_from_thousand();
    assert_eq!(
        iv.poll_tick_at(POLLED, millis(10)),
        Some(PollAction::AwaitTimer { arm: Some(millis(1_000)) })
    );
    assert_eq!(iv.poll_tick_at(PENDING, millis(10)), Some(PollAction::Pending));
    assert_eq!(iv.poll_tick_at(POLLED, millis(1_002)), tick_and_disarm(millis(1_000)));
    assert_eq!(
        iv.poll_tick_at(POLLED, millis(1_003)),
        Some(PollAction::AwaitTimer { arm: Some(millis(1_100)) })
    );
    assert_eq!(iv.poll_tick_at(EXPIRED, millis(1_100)), tick(millis(1_100)));
    assert_eq!(iv.poll_tick_at(POLLED, millis(1_250)), tick(millis(1_200)));
}

#[test]
fn tick_within_five_milliseconds_is_not_missed() {
    for behavior in [
        MissedTickBehavior::Burst,
        MissedTickBehavior::Delay,
        MissedTickBehavior::Skip,
    ] {
        for late in [0, 1, 5] {
            let mut iv = interval_at(Clock::start(), millis(1_000), Duration::from_millis(50));
            iv.set_missed_tick_behavior(behavior);
            assert_eq!(iv.poll_tick_at(POLLED, millis(1_000 + late)), tick(millis(1_000)));
            assert_eq!(iv.next_deadline(), millis(1_050));
        }
    }
}

#[test]
fn tick_is_missed_after_five_milliseconds() {
    let late = nanos(1_005_000_001);
    for (behavior, next) in [
        (MissedTickBehavior::Burst, millis(1_002)),
        (MissedTickBehavior::Delay, nanos(1_007_000_001)),
        (MissedTickBehavior::Skip, millis(1_006)),
    ] {
        let mut iv = interval_at(Clock::start(), millis(1_000), Duration::from_millis(2));
        iv.set_missed_tick_behavior(behavior);
        assert_eq!(iv.poll_tick_at(POLLED, late), tick(millis(1_000)));
        assert_eq!(iv.next_deadline(), next);
    }
}

#[test]
fn delay_keeps_the_schedule_of_ticks_on_time() {
    let mut iv = interval_at(Clock::start(), millis(0), Duration::from_millis(50));
    iv.set_missed_tick_behavior(MissedTickBehavior::Delay);
    for (now, next) in [(0, 50), (51, 100), (105, 150), (156, 206), (206, 256)] {
        let _ = iv.poll_tick_at(EXPIRED, millis(now));
        assert_eq!(iv.next_deadline(), millis(next));
    }
}

#[test]
fn skip_at_an_exact_multiple_waits_for_the_next_one() {
    let mut iv = hundred_from_thousand();
    iv.set_missed_tick_behavior(MissedTickBehavior::Skip);
    assert_eq!(iv.poll_tick_at(POLLED, millis(1_300)), tick(millis(1_000)));
    assert_eq!(
        iv.poll_tick_at(POLLED, millis(1_300)),
        Some(PollAction::AwaitTimer { arm: Some(millis(1_400)) })
    );
}

#[test]
fn pending_timer_changes_nothing() {
    let mut iv = hundred_from_thousand();
    assert_eq!(iv.poll_tick(PENDING), Some(PollAction::Pending));
    assert_eq!(iv.next_deadline(), millis(1_000));
}
