use tokio_osinterval::behavior::ticks_to_skip;
use tokio_osinterval::{Clock, Duration, MissedTickBehavior, TimePoint};

fn at(nanos: i128) -> TimePoint {
    TimePoint::from_nanos(nanos).unwrap()
}

#[test]
fn skip_advances_to_next_multiple() {
    let prev = Clock::start().now();
    let period = Duration::from_millis(100);
    // Suppose 350ms have elapsed since prev: ceil(350/100) = 4.
    let now = prev.checked_add(Duration::from_millis(350)).unwrap();
    let next = MissedTickBehavior::Skip.next_deadline(prev, now, period);
    assert_eq!(next, prev.checked_add(Duration::from_millis(400)).unwrap());
}

#[test]
fn burst_uses_period_only() {
    let prev = Clock::start().now();
    let period = Duration::from_millis(100);
    let now = prev.checked_add(Duration::from_millis(500)).unwrap();
    let next = MissedTickBehavior::Burst.next_deadline(prev, now, period);
    assert_eq!(next, prev.checked_add(period).unwrap());
}

#[test]
fn delay_uses_now_plus_period() {
    let prev = Clock::start().now();
    let period = Duration::from_millis(100);
    let now = prev.checked_add(Duration::from_millis(500)).unwrap();
    let next = MissedTickBehavior::Delay.next_deadline(prev, now, period);
    assert_eq!(next, now.checked_add(period).unwrap());
}

#[test]
fn default_behavior_is_burst() {
    assert_eq!(MissedTickBehavior::default(), MissedTickBehavior::Burst);
}

#[test]
fn skip_on_time_goes_one_period_ahead() {
    let period = Duration::from_nanos(100);
    for now in [0, 1, 99] {
        let next = MissedTickBehavior::Skip.next_deadline(at(0), at(now), period);
        assert_eq!(next, at(100));
    }
    assert_eq!(MissedTickBehavior::Skip.next_deadline(at(0), at(-5), period), at(100));
}

#[test]
fn skip_at_an_exact_multiple_goes_to_the_next_one() {
    let prev = Clock::start().now();
    let now = prev.checked_add(Duration::from_millis(300)).unwrap();
    let next = MissedTickBehavior::Skip.next_deadline(prev, now, Duration::from_millis(100));
    assert_eq!(next, prev.checked_add(Duration::from_millis(400)).unwrap());

    let period = Duration::from_nanos(100);
    assert_eq!(MissedTickBehavior::Skip.next_deadline(at(0), at(100), period), at(200));
    assert_eq!(MissedTickBehavior::Skip.next_deadline(at(0), at(199), period), at(200));
    assert_eq!(MissedTickBehavior::Skip.next_deadline(at(0), at(200), period), at(300));
    assert_eq!(MissedTickBehavior::Skip.next_deadline(at(0), at(201), period), at(300));
}

#[test]
fn skip_saturates_the_number_of_periods() {
    let period = Duration::from_nanos(1);
    let max = i128::from(u32::MAX);
    assert_eq!(MissedTickBehavior::Skip.next_deadline(at(0), at(max - 1), period), at(max));
    assert_eq!(MissedTickBehavior::Skip.next_deadline(at(0), at(max), period), at(max));
    assert_eq!(MissedTickBehavior::Skip.next_deadline(at(0), at(max + 1), period), at(max));
    assert_eq!(MissedTickBehavior::Skip.next_deadline(at(7), at(10 * max), period), at(max + 7));
    assert_eq!(ticks_to_skip(u128::MAX, 1), u32::MAX);
}

#[test]
fn skip_counts_the_periods_that_lead_past_the_delay() {
    assert_eq!(ticks_to_skip(0, 100), 1);
    assert_eq!(ticks_to_skip(99, 100), 1);
    assert_eq!(ticks_to_skip(100, 100), 2);
    assert_eq!(ticks_to_skip(101, 100), 2);
    assert_eq!(ticks_to_skip(5, 0), 6);
    assert_eq!(ticks_to_skip(u128::from(u32::MAX) - 2, 1), u32::MAX - 1);
    assert_eq!(ticks_to_skip(u128::from(u32::MAX) - 1, 1), u32::MAX);
    assert_eq!(ticks_to_skip(u128::from(u32::MAX), 1), u32::MAX);
}

#[test]
fn empty_period_leaves_the_deadline() {
    let zero = Duration::from_nanos(0);
    assert_eq!(MissedTickBehavior::Skip.next_deadline(at(3), at(1_000), zero), at(3));
    assert_eq!(MissedTickBehavior::Burst.next_deadline(at(3), at(1_000), zero), at(3));
    assert_eq!(MissedTickBehavior::Delay.next_deadline(at(3), at(1_000), zero), at(1_000));
}

#[test]
fn unrepresentable_deadline_is_none() {
    let last = TimePoint::saturating_from_nanos(u128::MAX);
    let period = Duration::from_nanos(1);
    let burst = MissedTickBehavior::Burst;
    assert_eq!(burst.checked_next_deadline(last, last, period), None);
    assert_eq!(burst.checked_next_deadline(at(0), last, period), Some(at(1)));
    let delay = MissedTickBehavior::Delay;
    assert_eq!(delay.checked_next_deadline(at(0), last, period), None);
    let skip = MissedTickBehavior::Skip;
    let longest = Duration::new(u64::MAX, 999_999_999);
    assert_eq!(skip.checked_next_deadline(at(0), last, longest), None);
    for behavior in [burst, delay, skip] {
        assert_eq!(behavior.checked_deadline_after(last, last, period), None);
    }
}

/// The deadlines that follow when ticks are observed at the given moments, in milliseconds.
fn deadlines(behavior: MissedTickBehavior, period: u64, observed: &[i128]) -> Vec<i128> {
    let mut deadline = at(0);
    let mut all = vec![0];
    for now in observed {
        let now = at(*now * 1_000_000);
        deadline = behavior
            .checked_deadline_after(deadline, now, Duration::from_millis(period))
            .unwrap();
        all.push(deadline.as_nanos() / 1_000_000);
    }
    all
}

#[test]
fn burst_keeps_every_deadline() {
    let observed = [0, 730, 731, 732, 900];
    assert_eq!(
        deadlines(MissedTickBehavior::Burst, 100, &observed),
        vec![0, 100, 200, 300, 400, 500]
    );
}

#[test]
fn skip_stays_on_schedule() {
    let observed = [0, 730, 805, 1_250, 1_600];
    assert_eq!(
        deadlines(MissedTickBehavior::Skip, 100, &observed),
        vec![0, 100, 800, 900, 1_300, 1_700]
    );
}

#[test]
fn delay_slips_the_schedule() {
    let observed = [0, 730, 835, 936, 1_250];
    assert_eq!(
        deadlines(MissedTickBehavior::Delay, 100, &observed),
        vec![0, 100, 830, 930, 1_036, 1_350]
    );
}

#[test]
fn punctual_ticks_agree_under_every_behavior() {
    let observed = [0, 100, 203, 305];
    for behavior in [
        MissedTickBehavior::Burst,
        MissedTickBehavior::Delay,
        MissedTickBehavior::Skip,
    ] {
        assert_eq!(deadlines(behavior, 100, &observed), vec![0, 100, 200, 300, 400]);
    }
}

#[test]
fn tolerance_ends_after_five_milliseconds() {
    let period = Duration::from_millis(100);
    let delay = MissedTickBehavior::Delay;
    assert_eq!(
        delay.checked_deadline_after(at(0), at(5_000_000), period),
        Some(at(100_000_000))
    );
    assert_eq!(
        delay.checked_deadline_after(at(0), at(5_000_001), period),
        Some(at(105_000_001))
    );
    assert_eq!(
        delay.checked_deadline_after(at(0), at(-7), period),
        Some(at(100_000_000))
    );
}

#[test]
fn deadlines_of_due_ticks_lie_a_period_apart() {
    for behavior in [
        MissedTickBehavior::Burst,
        MissedTickBehavior::Delay,
        MissedTickBehavior::Skip,
    ] {
        let mut deadline = at(0);
        for late in [0, 1, 99, 100, 350] {
            let now = at(deadline.as_nanos() + late * 1_000_000);
            let next = behavior
                .checked_deadline_after(deadline, now, Duration::from_millis(100))
                .unwrap();
            assert!(next.as_nanos() >= deadline.as_nanos() + 100_000_000);
            deadline = next;
        }
    }
}

#[test]
fn deadline_long_before_the_origin_can_be_followed() {
    let first = at(-18_446_744_073_709_551_615_999_999_999);
    let period = Duration::from_secs(10_000_000_000);
    let skip = MissedTickBehavior::Skip;
    let next = skip.next_deadline(first, at(0), period);
    assert!(next > at(0));
    assert!(next <= at(10_000_000_000_000_000_000));
}
