//! What each operation answers, stated over its arguments and results in plain numbers.
//!
//! Every law here takes a call, through `call_ensures`, and says what its result is; points and
//! spans are their nanoseconds. A point lies between `-18_446_744_073_709_551_615_999_999_999` and
//! `9_223_372_036_854_775_807_999_999_999`.

use vstd::prelude::*;

use crate::behavior::{following_deadline, periods_to_skip, ticks_to_skip, MissedTickBehavior};
use crate::clock::Clock;
use crate::interval::{
    interval, interval_at, moved_if_representable, steps, Disarm, IntervalState, OsInterval,
    PollAction, PollEvent,
};
use crate::periodic::{Expirations, PeriodicInterval};
use crate::schedule::{
    law_burst_and_skip_agree_within_a_period, law_skip_goes_to_the_next_multiple,
    law_skip_of_a_huge_delay_is_cut_short,
};
use crate::sys::fd::{ErrorKind, FdAction, FdEvent};
use crate::time::{non_negative, Duration, TimePoint};

verus! {

/// A point is made for exactly the positions in range, and gives its position back.
pub proof fn law_point_keeps_its_position(nanos: i128, t: Option<TimePoint>, back: i128)
    requires
        call_ensures(TimePoint::from_nanos, (nanos,), t),
        t matches Some(point) ==> call_ensures(TimePoint::as_nanos, (&point,), back),
    ensures
        t is Some <==> -18_446_744_073_709_551_615_999_999_999 <= nanos
            <= 9_223_372_036_854_775_807_999_999_999,
        t matches Some(point) ==> point@ == nanos && back == nanos,
{
}

/// The origin lies at zero.
pub proof fn law_origin_is_zero(t: TimePoint, nanos: i128)
    requires
        call_ensures(TimePoint::origin, (), t),
        call_ensures(TimePoint::as_nanos, (&t,), nanos),
    ensures
        t@ == 0,
        nanos == 0,
{
}

/// A position past the latest point is given as the latest point, every other one as it is.
pub proof fn law_late_positions_saturate(nanos: u128, t: TimePoint)
    requires
        call_ensures(TimePoint::saturating_from_nanos, (nanos,), t),
    ensures
        nanos <= 9_223_372_036_854_775_807_999_999_999 ==> t@ == nanos,
        nanos > 9_223_372_036_854_775_807_999_999_999 ==> t@
            == 9_223_372_036_854_775_807_999_999_999,
{
}

/// Adding a span moves a point forward by all of it, and fails exactly where that leads out of
/// range.
pub proof fn law_adding_moves_forward(t: TimePoint, d: Duration, sum: Option<TimePoint>)
    requires
        call_ensures(TimePoint::checked_add, (&t, d), sum),
    ensures
        sum is Some <==> -18_446_744_073_709_551_615_999_999_999 <= t@ + d@
            <= 9_223_372_036_854_775_807_999_999_999,
        sum matches Some(s) ==> s@ == t@ + d@,
{
}

/// Subtracting a span moves a point back by all of it, and fails exactly where that leads out of
/// range.
pub proof fn law_subtracting_moves_back(t: TimePoint, d: Duration, difference: Option<TimePoint>)
    requires
        call_ensures(TimePoint::checked_sub, (&t, d), difference),
    ensures
        difference is Some <==> -18_446_744_073_709_551_615_999_999_999 <= t@ - d@
            <= 9_223_372_036_854_775_807_999_999_999,
        difference matches Some(s) ==> s@ == t@ - d@,
{
}

/// The time between two points is their distance, up to the longest span there is; there is none
/// back to an earlier point.
pub proof fn law_time_between_points_is_their_distance(
    earlier: TimePoint,
    later: TimePoint,
    d: Duration,
)
    requires
        call_ensures(TimePoint::saturating_duration_since, (&later, earlier), d),
    ensures
        0 <= later@ - earlier@ <= 18_446_744_073_709_551_615_999_999_999 ==> d@ == later@
            - earlier@,
        later@ <= earlier@ ==> d@ == 0,
        later@ - earlier@ > 18_446_744_073_709_551_615_999_999_999 ==> d@
            == 18_446_744_073_709_551_615_999_999_999,
{
}

/// The point that a span leads to lies that span away: the time since the start is the span, and
/// subtracting it leads back.
pub proof fn law_adding_is_undone(
    t: TimePoint,
    d: Duration,
    sum: TimePoint,
    since: Duration,
    back: Option<TimePoint>,
)
    requires
        -18_446_744_073_709_551_615_999_999_999 <= t@ <= 9_223_372_036_854_775_807_999_999_999,
        d@ <= 18_446_744_073_709_551_615_999_999_999,
        call_ensures(TimePoint::checked_add, (&t, d), Some(sum)),
        call_ensures(TimePoint::saturating_duration_since, (&sum, t), since),
        call_ensures(TimePoint::checked_sub, (&sum, d), back),
    ensures
        since@ == d@,
        back matches Some(b) && b@ == t@,
{
}

/// Spans are made of their units, and split into seconds and nanoseconds that make up the whole.
pub proof fn law_durations_keep_their_length(
    d: Duration,
    nanos: u128,
    secs: u64,
    sub: u32,
    zero: bool,
)
    requires
        call_ensures(Duration::as_nanos, (&d,), nanos),
        call_ensures(Duration::as_secs, (&d,), secs),
        call_ensures(Duration::subsec_nanos, (&d,), sub),
        call_ensures(Duration::is_zero, (&d,), zero),
    ensures
        nanos == d@,
        secs * 1_000_000_000 + sub == nanos,
        sub < 1_000_000_000,
        zero <==> nanos == 0,
        nanos <= 18_446_744_073_709_551_615_999_999_999,
{
}

/// A span of a number of units has that many units.
pub proof fn law_durations_count_their_units(
    n: u64,
    s: Duration,
    ms: Duration,
    us: Duration,
    ns: Duration,
    extra: u32,
    mixed: Duration,
)
    requires
        call_ensures(Duration::from_secs, (n,), s),
        call_ensures(Duration::from_millis, (n,), ms),
        call_ensures(Duration::from_micros, (n,), us),
        call_ensures(Duration::from_nanos, (n,), ns),
        call_ensures(Duration::new, (n, extra), mixed),
    ensures
        s@ == n * 1_000_000_000,
        ms@ == n * 1_000_000,
        us@ == n * 1_000,
        ns@ == n,
        mixed@ == n * 1_000_000_000 + extra,
{
}

/// A clock starts at a reading of tokio's clock.
pub proof fn law_clock_starts_at_a_reading(clock: Clock)
    requires
        call_ensures(Clock::start, (), clock),
    ensures
        call_ensures(tokio::time::Instant::now, (), clock.origin),
{
}

/// What counts as a reading of a clock is what asking it for the present moment gave, and such a
/// reading is in range and never before the origin.
pub proof fn law_readings_come_from_the_clock(clock: Clock, now: TimePoint)
    requires
        clock.reads(now),
    ensures
        call_ensures(Clock::now, (&clock,), now),
        0 <= now@ <= 9_223_372_036_854_775_807_999_999_999,
{
}

/// The present moment is what the clock reports, cut off at the latest point.
pub proof fn law_present_moment_is_what_the_clock_reports(clock: Clock, now: TimePoint)
    requires
        call_ensures(Clock::now, (&clock,), now),
    ensures
        exists|nanos: u128| #[trigger]
            clock.reports(nanos) && (nanos <= 9_223_372_036_854_775_807_999_999_999 ==> now@
                == nanos) && (nanos > 9_223_372_036_854_775_807_999_999_999 ==> now@
                == 9_223_372_036_854_775_807_999_999_999),
{
}

/// A tick observed no more than five milliseconds late, or before it is due, is followed by the one
/// a period after it was due, whatever the behavior.
pub proof fn law_tick_on_time_is_followed_a_period_later(
    behavior: MissedTickBehavior,
    prev: TimePoint,
    now: TimePoint,
    period: Duration,
    next: Option<TimePoint>,
)
    requires
        call_ensures(MissedTickBehavior::checked_deadline_after, (behavior, prev, now, period), next),
        now@ <= prev@ + 5_000_000,
    ensures
        next is Some <==> -18_446_744_073_709_551_615_999_999_999 <= prev@ + period@
            <= 9_223_372_036_854_775_807_999_999_999,
        next matches Some(n) ==> n@ == prev@ + period@,
{
}

/// Under [`MissedTickBehavior::Burst`] the next deadline is a period after the one before, however
/// late the tick was.
pub proof fn law_burst_goes_one_period_ahead(
    prev: TimePoint,
    now: TimePoint,
    period: Duration,
    next: Option<TimePoint>,
    checked: Option<TimePoint>,
)
    requires
        call_ensures(
            MissedTickBehavior::checked_deadline_after,
            (MissedTickBehavior::Burst, prev, now, period),
            next,
        ),
        call_ensures(
            MissedTickBehavior::checked_next_deadline,
            (MissedTickBehavior::Burst, prev, now, period),
            checked,
        ),
    ensures
        next is Some <==> -18_446_744_073_709_551_615_999_999_999 <= prev@ + period@
            <= 9_223_372_036_854_775_807_999_999_999,
        next matches Some(n) ==> n@ == prev@ + period@,
        checked is Some <==> next is Some,
        checked matches Some(n) ==> n@ == prev@ + period@,
{
}

/// Under [`MissedTickBehavior::Delay`] a tick observed more than five milliseconds late is followed
/// a period after it was observed.
pub proof fn law_delay_slips_past_a_missed_tick(
    prev: TimePoint,
    now: TimePoint,
    period: Duration,
    next: Option<TimePoint>,
)
    requires
        call_ensures(
            MissedTickBehavior::checked_deadline_after,
            (MissedTickBehavior::Delay, prev, now, period),
            next,
        ),
        now@ > prev@ + 5_000_000,
    ensures
        next is Some <==> -18_446_744_073_709_551_615_999_999_999 <= now@ + period@
            <= 9_223_372_036_854_775_807_999_999_999,
        next matches Some(n) ==> n@ == now@ + period@,
{
}

/// What [`MissedTickBehavior::Skip`] moves a missed deadline to: the least whole number of periods
/// after it that lies past `now`, less than `u32::MAX` periods having passed.
proof fn lemma_skip_finds_the_least_multiple(prev: int, now: int, period: nat)
    requires
        period > 0,
        prev <= now,
        now - prev < 4_294_967_295 * period,
    ensures
        now < following_deadline(MissedTickBehavior::Skip, prev, now, period) <= now + period,
        exists|k: int|
            following_deadline(MissedTickBehavior::Skip, prev, now, period) == prev + #[trigger] (k
                * period),
        forall|k: int|
            prev + #[trigger] (k * period) > now ==> following_deadline(
                MissedTickBehavior::Skip,
                prev,
                now,
                period,
            ) <= prev + k * period,
{
    law_skip_goes_to_the_next_multiple(prev, now, period);
}

/// Under [`MissedTickBehavior::Skip`] a tick observed more than five milliseconds late is followed
/// by the first deadline of its schedule that lies after the moment it was observed, and by none
/// only where that is out of range. Less than `u32::MAX` periods must have passed.
pub proof fn law_skip_snaps_to_the_next_multiple(
    prev: TimePoint,
    now: TimePoint,
    period: Duration,
    next: Option<TimePoint>,
)
    requires
        call_ensures(
            MissedTickBehavior::checked_deadline_after,
            (MissedTickBehavior::Skip, prev, now, period),
            next,
        ),
        -18_446_744_073_709_551_615_999_999_999 <= prev@,
        now@ > prev@ + 5_000_000,
        period@ > 0,
        now@ - prev@ < 4_294_967_295 * period@,
    ensures
        next matches Some(n) ==> {
            &&& now@ < n@ <= now@ + period@
            &&& exists|k: int| n@ == prev@ + #[trigger] (k * period@)
            &&& forall|k: int| prev@ + #[trigger] (k * period@) > now@ ==> n@ <= prev@ + k * period@
        },
        next is None ==> forall|k: int|
            prev@ + #[trigger] (k * period@) > now@ ==> prev@ + k * period@
                > 9_223_372_036_854_775_807_999_999_999,
        now@ + period@ <= 9_223_372_036_854_775_807_999_999_999 ==> next is Some,
{
    lemma_skip_finds_the_least_multiple(prev@, now@, period@);
}

/// Under [`MissedTickBehavior::Skip`] a delay of `u32::MAX` periods or more moves the deadline by
/// `u32::MAX` periods, and an empty period leaves it where it is.
pub proof fn law_skip_of_extreme_delays(
    prev: TimePoint,
    now: TimePoint,
    period: Duration,
    next: Option<TimePoint>,
)
    requires
        call_ensures(
            MissedTickBehavior::checked_deadline_after,
            (MissedTickBehavior::Skip, prev, now, period),
            next,
        ),
        -18_446_744_073_709_551_615_999_999_999 <= prev@ <= 9_223_372_036_854_775_807_999_999_999,
        now@ <= 9_223_372_036_854_775_807_999_999_999,
        now@ > prev@ + 5_000_000,
        now@ - prev@ >= 4_294_967_295 * period@,
    ensures
        next matches Some(n) && n@ == prev@ + 4_294_967_295 * period@,
{
    if period@ > 0 {
        law_skip_of_a_huge_delay_is_cut_short(prev@, now@, period@);
        assert(4_294_967_295 * period@ >= 0) by (nonlinear_arith);
    } else {
        let n = periods_to_skip(non_negative(now@ - prev@), period@);
        assert(period@ * n == 0) by (nonlinear_arith)
            requires
                period@ == 0,
        ;
    }
}

/// Where a tick is missed, [`MissedTickBehavior::next_deadline`] gives what an interval goes on
/// with; it treats every tick as missed.
pub proof fn law_next_deadline_treats_every_tick_as_missed(
    behavior: MissedTickBehavior,
    prev: TimePoint,
    now: TimePoint,
    period: Duration,
    next: TimePoint,
    checked: Option<TimePoint>,
    after: Option<TimePoint>,
)
    requires
        call_ensures(MissedTickBehavior::next_deadline, (behavior, prev, now, period), next),
        call_ensures(
            MissedTickBehavior::checked_next_deadline,
            (behavior, prev, now, period),
            checked,
        ),
        call_ensures(
            MissedTickBehavior::checked_deadline_after,
            (behavior, prev, now, period),
            after,
        ),
    ensures
        behavior == MissedTickBehavior::Burst ==> next@ == prev@ + period@,
        behavior == MissedTickBehavior::Delay ==> next@ == now@ + period@,
        behavior == MissedTickBehavior::Skip && period@ == 0 ==> next@ == prev@,
        checked is Some <==> -18_446_744_073_709_551_615_999_999_999 <= next@
            <= 9_223_372_036_854_775_807_999_999_999,
        checked matches Some(n) ==> n@ == next@,
        now@ > prev@ + 5_000_000 ==> (after is Some <==> checked is Some),
        now@ > prev@ + 5_000_000 ==> (after matches Some(n) ==> n@ == next@),
{
    let n = periods_to_skip(non_negative(now@ - prev@), period@);
    assert(period@ == 0 ==> period@ * n == 0) by (nonlinear_arith);
}

/// [`MissedTickBehavior::checked_next_deadline`] and [`MissedTickBehavior::next_deadline`] under
/// [`MissedTickBehavior::Delay`]: one period after `now`.
pub proof fn law_next_deadline_under_delay(
    prev: TimePoint,
    now: TimePoint,
    period: Duration,
    checked: Option<TimePoint>,
)
    requires
        call_ensures(
            MissedTickBehavior::checked_next_deadline,
            (MissedTickBehavior::Delay, prev, now, period),
            checked,
        ),
    ensures
        checked is Some <==> -18_446_744_073_709_551_615_999_999_999 <= now@ + period@
            <= 9_223_372_036_854_775_807_999_999_999,
        checked matches Some(n) ==> n@ == now@ + period@,
{
}

/// [`MissedTickBehavior::next_deadline`] and [`MissedTickBehavior::checked_next_deadline`] under
/// [`MissedTickBehavior::Skip`]: the first deadline of the schedule past `now`, and the next one
/// where none has been missed.
pub proof fn law_next_deadline_under_skip(
    prev: TimePoint,
    now: TimePoint,
    period: Duration,
    next: TimePoint,
    checked: Option<TimePoint>,
)
    requires
        call_ensures(
            MissedTickBehavior::next_deadline,
            (MissedTickBehavior::Skip, prev, now, period),
            next,
        ),
        call_ensures(
            MissedTickBehavior::checked_next_deadline,
            (MissedTickBehavior::Skip, prev, now, period),
            checked,
        ),
        -18_446_744_073_709_551_615_999_999_999 <= prev@,
        period@ > 0,
        now@ - prev@ < 4_294_967_295 * period@,
    ensures
        now@ < prev@ + period@ ==> next@ == prev@ + period@,
        prev@ <= now@ ==> {
            &&& now@ < next@ <= now@ + period@
            &&& exists|k: int| next@ == prev@ + #[trigger] (k * period@)
            &&& forall|k: int|
                prev@ + #[trigger] (k * period@) > now@ ==> next@ <= prev@ + k * period@
        },
        checked matches Some(n) ==> n@ == next@,
        checked is None ==> next@ > 9_223_372_036_854_775_807_999_999_999,
{
    if now@ < prev@ + period@ {
        law_burst_and_skip_agree_within_a_period(prev@, now@, period@);
    }
    if prev@ <= now@ {
        lemma_skip_finds_the_least_multiple(prev@, now@, period@);
    }
}

/// The number of periods to skip is the least that leads past the delay, and `u32::MAX` where that
/// is more; an empty period counts as one nanosecond.
pub proof fn law_ticks_to_skip_lead_past_the_delay(late: u128, period: u128, n: u32)
    requires
        call_ensures(ticks_to_skip, (late, period), n),
    ensures
        period > 0 && late < 4_294_967_295 * period ==> (n - 1) * period <= late < n * period,
        period > 0 && late >= 4_294_967_295 * period ==> n == 4_294_967_295,
        period == 0 && late < 4_294_967_295 ==> n == late + 1,
        period == 0 && late >= 4_294_967_295 ==> n == 4_294_967_295,
{
    if period > 0 {
        let l = late as int;
        let p = period as int;
        let whole = l / p;
        vstd::arithmetic::div_mod::lemma_fundamental_div_mod(l, p);
        vstd::arithmetic::mul::lemma_mul_is_commutative(p, whole);
        assert((whole + 1) * p == whole * p + p) by (nonlinear_arith);
        if l < 4_294_967_295 * p {
            assert(whole < 4_294_967_295) by (nonlinear_arith)
                requires
                    whole * p <= l,
                    l < 4_294_967_295 * p,
                    p > 0,
            ;
            assert(n == whole + 1);
        } else {
            assert(whole + 1 > 4_294_967_295) by (nonlinear_arith)
                requires
                    l < (whole + 1) * p,
                    l >= 4_294_967_295 * p,
                    p > 0,
            ;
        }
    }
}

/// Ticks that are missed are made up in a burst unless the behavior says otherwise.
pub proof fn law_default_behavior_is_burst(behavior: MissedTickBehavior)
    requires
        call_ensures(MissedTickBehavior::default, (), behavior),
    ensures
        behavior is Burst,
{
}

/// A new interval has the start as its first deadline, keeps its period and its clock, catches up
/// in bursts, and has armed nothing.
pub proof fn law_new_interval_starts_at_the_start(
    clock: Clock,
    start: TimePoint,
    period: Duration,
    iv: OsInterval,
    deadline: TimePoint,
)
    requires
        call_ensures(interval_at, (clock, start, period), iv),
        call_ensures(OsInterval::next_deadline, (&iv,), deadline),
    ensures
        iv@.next_deadline == start@,
        deadline@ == start@,
        iv@.period == period@,
        iv@.behavior is Burst,
        iv@.armed_for is None,
        iv.timeline() == clock,
{
}

/// An interval on a clock of its own has its first deadline at the moment that clock was started.
pub proof fn law_new_interval_starts_now(period: Duration, iv: OsInterval)
    requires
        call_ensures(interval, (period,), iv),
    ensures
        iv@.next_deadline == 0,
        iv@.period == period@,
        iv@.behavior is Burst,
        iv@.armed_for is None,
        call_ensures(tokio::time::Instant::now, (), iv.timeline().origin),
{
}

/// What can be asked of an interval is what it holds.
pub proof fn law_interval_tells_what_it_holds(
    iv: OsInterval,
    period: Duration,
    behavior: MissedTickBehavior,
    deadline: TimePoint,
    clock: Clock,
)
    requires
        call_ensures(OsInterval::period, (&iv,), period),
        call_ensures(OsInterval::missed_tick_behavior, (&iv,), behavior),
        call_ensures(OsInterval::next_deadline, (&iv,), deadline),
        call_ensures(OsInterval::clock, (&iv,), clock),
    ensures
        period@ == iv@.period,
        behavior == iv@.behavior,
        deadline@ == iv@.next_deadline,
        clock == iv.timeline(),
{
}

/// Setting the behavior replaces the behavior and nothing else.
pub proof fn law_setting_the_behavior_changes_nothing_else(
    iv: &mut OsInterval,
    behavior: MissedTickBehavior,
)
    requires
        call_ensures(OsInterval::set_missed_tick_behavior, (iv, behavior), ()),
    ensures
        final(iv)@.behavior == behavior,
        final(iv)@.period == old(iv)@.period,
        final(iv)@.next_deadline == old(iv)@.next_deadline,
        final(iv)@.armed_for == old(iv)@.armed_for,
        final(iv).timeline() == old(iv).timeline(),
{
}

/// Moving a tick replaces its deadline, armed or not, leaves the timer to be armed anew, keeps the
/// period and the behavior, and asks for the timer to be disarmed. Where the deadline is out of
/// range nothing changes and nothing is asked for.
pub proof fn law_moving_a_tick_replaces_its_deadline(
    before: IntervalState,
    after: IntervalState,
    deadline: int,
    disarm: Option<Disarm>,
)
    requires
        moved_if_representable(before, after, deadline, disarm),
    ensures
        -18_446_744_073_709_551_615_999_999_999 <= deadline
            <= 9_223_372_036_854_775_807_999_999_999 ==> {
            &&& disarm is Some
            &&& after.next_deadline == deadline
            &&& after.armed_for is None
        },
        deadline < -18_446_744_073_709_551_615_999_999_999 || deadline
            > 9_223_372_036_854_775_807_999_999_999 ==> {
            &&& disarm is None
            &&& after.next_deadline == before.next_deadline
            &&& after.armed_for == before.armed_for
        },
        after.period == before.period,
        after.behavior == before.behavior,
{
}

/// A reset to a deadline makes it the next one, whatever the interval was doing.
pub proof fn law_reset_at_sets_the_deadline(
    iv: &mut OsInterval,
    deadline: TimePoint,
    disarm: Disarm,
)
    requires
        call_ensures(OsInterval::reset_at, (iv, deadline), disarm),
    ensures
        final(iv)@.next_deadline == deadline@,
        final(iv)@.armed_for is None,
        final(iv)@.period == old(iv)@.period,
        final(iv)@.behavior == old(iv)@.behavior,
        final(iv).timeline() == old(iv).timeline(),
{
}

/// A reset by a span makes the next tick due that span after `now`, whatever the interval was
/// doing, as long as that is in range; otherwise nothing changes.
pub proof fn law_reset_after_counts_from_now(
    iv: &mut OsInterval,
    now: TimePoint,
    after: Duration,
    disarm: Option<Disarm>,
)
    requires
        call_ensures(OsInterval::reset_after_from, (iv, now, after), disarm),
        -18_446_744_073_709_551_615_999_999_999 <= now@,
    ensures
        now@ + after@ <= 9_223_372_036_854_775_807_999_999_999 ==> {
            &&& disarm is Some
            &&& final(iv)@.next_deadline == now@ + after@
            &&& final(iv)@.armed_for is None
        },
        now@ + after@ > 9_223_372_036_854_775_807_999_999_999 ==> {
            &&& disarm is None
            &&& final(iv)@.next_deadline == old(iv)@.next_deadline
            &&& final(iv)@.armed_for == old(iv)@.armed_for
        },
        final(iv)@.period == old(iv)@.period,
        final(iv)@.behavior == old(iv)@.behavior,
        final(iv).timeline() == old(iv).timeline(),
{
    law_moving_a_tick_replaces_its_deadline(old(iv)@, final(iv)@, now@ + after@, disarm);
}

/// The resets that ask the clock count from what it read: a period, a span, or nothing after that
/// moment.
pub proof fn law_reset_counts_from_the_clock(
    iv: &mut OsInterval,
    disarm: Option<Disarm>,
)
    requires
        call_ensures(OsInterval::reset, (iv,), disarm),
    ensures
        final(iv).timeline() == old(iv).timeline(),
        final(iv)@.period == old(iv)@.period,
        final(iv)@.behavior == old(iv)@.behavior,
        exists|now: TimePoint| #[trigger]
            call_ensures(Clock::now, (&old(iv).timeline(),), now) && 0 <= now@ && (now@ + old(iv)@.period <= 9_223_372_036_854_775_807_999_999_999 ==> disarm is Some && final(iv)@.next_deadline == now@ + old(iv)@.period && final(iv)@.armed_for is None) && (now@
                + old(iv)@.period > 9_223_372_036_854_775_807_999_999_999 ==> disarm is None
                && final(iv)@ == old(iv)@),
{
    let now = choose|now: TimePoint| #[trigger]
        old(iv).timeline().reads(now) && moved_if_representable(
            old(iv)@,
            final(iv)@,
            now@ + old(iv)@.period,
            disarm,
        );
    law_readings_come_from_the_clock(old(iv).timeline(), now);
    law_moving_a_tick_replaces_its_deadline(
        old(iv)@,
        final(iv)@,
        now@ + old(iv)@.period,
        disarm,
    );
    assert(call_ensures(Clock::now, (&old(iv).timeline(),), now));
}

/// See [`law_reset_counts_from_the_clock`].
pub proof fn law_reset_after_counts_from_the_clock(
    iv: &mut OsInterval,
    after: Duration,
    disarm: Option<Disarm>,
)
    requires
        call_ensures(OsInterval::reset_after, (iv, after), disarm),
    ensures
        final(iv).timeline() == old(iv).timeline(),
        final(iv)@.period == old(iv)@.period,
        final(iv)@.behavior == old(iv)@.behavior,
        exists|now: TimePoint| #[trigger]
            call_ensures(Clock::now, (&old(iv).timeline(),), now) && 0 <= now@ && (now@ + after@
                <= 9_223_372_036_854_775_807_999_999_999 ==> disarm is Some && final(iv)@.next_deadline == now@ + after@ && final(iv)@.armed_for is None) && (now@ + after@
                > 9_223_372_036_854_775_807_999_999_999 ==> disarm is None && final(iv)@ == old(iv)@),
{
    let now = choose|now: TimePoint| #[trigger]
        old(iv).timeline().reads(now) && moved_if_representable(
            old(iv)@,
            final(iv)@,
            now@ + after@,
            disarm,
        );
    law_readings_come_from_the_clock(old(iv).timeline(), now);
    law_moving_a_tick_replaces_its_deadline(old(iv)@, final(iv)@, now@ + after@, disarm);
    assert(call_ensures(Clock::now, (&old(iv).timeline(),), now));
}

/// See [`law_reset_counts_from_the_clock`].
pub proof fn law_reset_immediately_is_due_at_the_reading(iv: &mut OsInterval, disarm: Disarm)
    requires
        call_ensures(OsInterval::reset_immediately, (iv,), disarm),
    ensures
        final(iv).timeline() == old(iv).timeline(),
        final(iv)@.period == old(iv)@.period,
        final(iv)@.behavior == old(iv)@.behavior,
        final(iv)@.armed_for is None,
        exists|now: TimePoint| #[trigger]
            call_ensures(Clock::now, (&old(iv).timeline(),), now) && 0 <= now@ && final(iv)@.next_deadline == now@,
{
    let now = choose|now: TimePoint| #[trigger]
        old(iv).timeline().reads(now) && final(iv)@ == old(iv)@.moved_to(now@);
    law_readings_come_from_the_clock(old(iv).timeline(), now);
    assert(call_ensures(Clock::now, (&old(iv).timeline(),), now));
}

/// A tick is delivered on every expiration of the timer, however late or early it is seen, and on
/// every poll at or after the deadline. The tick is that of the deadline that was next. The timer
/// is disarmed just where a poll delivers the tick while the timer is armed. There is no answer
/// only where the deadline to go on with is out of range, and then nothing changes.
pub proof fn law_due_tick_is_delivered(
    before: IntervalState,
    event: PollEvent,
    now: int,
    after: IntervalState,
    action: Option<PollAction>,
)
    requires
        steps(before, event, now, after, action),
        before.period > 0,
        -18_446_744_073_709_551_615_999_999_999 <= before.next_deadline,
        event is TimerExpired || (event is Polled && before.next_deadline <= now),
    ensures
        action matches Some(answer) ==> {
            &&& (answer matches PollAction::Ready { deadline, disarm } && deadline@
                == before.next_deadline && (disarm is Some <==> event is Polled
                && before.armed_for is Some))
            &&& after.armed_for is None
            &&& after.period == before.period
            &&& after.behavior == before.behavior
        },
        action is None ==> {
            &&& after.next_deadline == before.next_deadline
            &&& after.armed_for == before.armed_for
            &&& after.period == before.period
            &&& after.behavior == before.behavior
        },
        before.next_deadline + before.period <= 9_223_372_036_854_775_807_999_999_999 && now
            + before.period <= 9_223_372_036_854_775_807_999_999_999 ==> action is Some,
{
    let p = before.period;
    if before.behavior == MissedTickBehavior::Skip && now > before.next_deadline + 5_000_000 {
        if now - before.next_deadline < u32::MAX * p {
            law_skip_goes_to_the_next_multiple(before.next_deadline, now, p);
        } else {
            law_skip_of_a_huge_delay_is_cut_short(before.next_deadline, now, p);
            assert(u32::MAX * p >= 0) by (nonlinear_arith);
        }
    }
}

/// The deadline that an interval goes on with once it has delivered a tick: a period after the one
/// delivered, where that was no more than five milliseconds late or the behavior is to catch up; a
/// period after the moment of delivery, where the schedule is to slip; and the first of the
/// schedule after that moment, where ticks are to be skipped. Out of range is the only reason not
/// to go on.
pub proof fn law_delivered_tick_is_followed(
    before: IntervalState,
    event: PollEvent,
    now: int,
    after: IntervalState,
    action: Option<PollAction>,
)
    requires
        steps(before, event, now, after, action),
        before.period > 0,
        event is TimerExpired || (event is Polled && before.next_deadline <= now),
    ensures
        now <= before.next_deadline + 5_000_000 || before.behavior is Burst ==> {
            &&& action is Some <==> -18_446_744_073_709_551_615_999_999_999 <= before.next_deadline
                + before.period <= 9_223_372_036_854_775_807_999_999_999
            &&& action is Some ==> after.next_deadline == before.next_deadline + before.period
        },
        now > before.next_deadline + 5_000_000 && before.behavior is Delay ==> {
            &&& action is Some <==> -18_446_744_073_709_551_615_999_999_999 <= now + before.period
                <= 9_223_372_036_854_775_807_999_999_999
            &&& action is Some ==> after.next_deadline == now + before.period
        },
        now > before.next_deadline + 5_000_000 && before.behavior is Skip && now
            - before.next_deadline < 4_294_967_295 * before.period && action is Some ==> {
            &&& now < after.next_deadline <= now + before.period
            &&& exists|k: int|
                after.next_deadline == before.next_deadline + #[trigger] (k * before.period)
            &&& forall|k: int|
                before.next_deadline + #[trigger] (k * before.period) > now ==> after.next_deadline
                    <= before.next_deadline + k * before.period
        },
        now > before.next_deadline + 5_000_000 && before.behavior is Skip && now
            - before.next_deadline >= 4_294_967_295 * before.period && action is Some
            ==> after.next_deadline == before.next_deadline + 4_294_967_295 * before.period,
        now > before.next_deadline + 5_000_000 && before.behavior is Skip && action is None
            && -18_446_744_073_709_551_615_999_999_999 <= before.next_deadline && now
            <= 9_223_372_036_854_775_807_999_999_999 ==> {
            &&& now - before.next_deadline < 4_294_967_295 * before.period
            &&& forall|k: int|
                before.next_deadline + #[trigger] (k * before.period) > now ==> before.next_deadline
                    + k * before.period > 9_223_372_036_854_775_807_999_999_999
        },
{
    let p = before.period;
    if before.behavior == MissedTickBehavior::Skip && now > before.next_deadline + 5_000_000 {
        if now - before.next_deadline < 4_294_967_295 * p {
            lemma_skip_finds_the_least_multiple(before.next_deadline, now, p);
        } else {
            law_skip_of_a_huge_delay_is_cut_short(before.next_deadline, now, p);
            assert(4_294_967_295 * p >= 0) by (nonlinear_arith);
        }
    }
}

/// A poll before the deadline waits for the timer: it is told to arm, for exactly the deadline,
/// where it is not armed for it, and is armed for it from then on. A timer that is pending leaves
/// everything as it is.
pub proof fn law_tick_that_is_not_due_is_awaited(
    before: IntervalState,
    event: PollEvent,
    now: int,
    after: IntervalState,
    action: Option<PollAction>,
)
    requires
        steps(before, event, now, after, action),
        event is TimerPending || (event is Polled && now < before.next_deadline),
    ensures
        event is Polled ==> {
            &&& (action matches Some(PollAction::AwaitTimer { arm }) && (arm is None
                <==> before.armed_for == Some(before.next_deadline)) && (arm matches Some(t)
                ==> t@ == before.next_deadline))
            &&& after.armed_for == Some(before.next_deadline)
        },
        event is TimerPending ==> {
            &&& action matches Some(PollAction::Pending)
            &&& after.armed_for == before.armed_for
        },
        after.next_deadline == before.next_deadline,
        after.period == before.period,
        after.behavior == before.behavior,
{
}

/// A poll at a given moment is a step of the interval at that moment.
pub proof fn law_poll_at_a_moment_is_a_step(
    iv: &mut OsInterval,
    event: PollEvent,
    now: TimePoint,
    action: Option<PollAction>,
)
    requires
        call_ensures(OsInterval::poll_tick_at, (iv, event, now), action),
    ensures
        steps(old(iv)@, event, now@, final(iv)@, action),
        final(iv).timeline() == old(iv).timeline(),
{
}

/// An expiration of the timer delivers the tick of the next deadline, whatever the moment.
pub proof fn law_expiration_delivers_the_tick(
    iv: &mut OsInterval,
    now: TimePoint,
    action: Option<PollAction>,
)
    requires
        call_ensures(OsInterval::poll_tick_at, (iv, PollEvent::TimerExpired, now), action),
        old(iv)@.period > 0,
        -18_446_744_073_709_551_615_999_999_999 <= old(iv)@.next_deadline,
        old(iv)@.next_deadline + old(iv)@.period <= 9_223_372_036_854_775_807_999_999_999,
        now@ + old(iv)@.period <= 9_223_372_036_854_775_807_999_999_999,
    ensures
        action matches Some(PollAction::Ready { deadline, disarm: None }) && deadline@ == old(iv)@.next_deadline,
        final(iv)@.armed_for is None,
        final(iv)@.period == old(iv)@.period,
        final(iv)@.behavior == old(iv)@.behavior,
        final(iv)@.next_deadline >= old(iv)@.next_deadline + old(iv)@.period || now@ < old(iv)@.next_deadline,
{
    law_due_tick_is_delivered(old(iv)@, PollEvent::TimerExpired, now@, final(iv)@, action);
    if now@ >= old(iv)@.next_deadline {
        crate::schedule::law_deadlines_advance(
            old(iv)@.behavior,
            old(iv)@.next_deadline,
            now@,
            old(iv)@.period,
        );
    }
}

/// A poll is a step of the interval at the moment that its clock reads; a report that the timer is
/// pending does not need the clock.
pub proof fn law_poll_is_a_step_at_the_reading(
    iv: &mut OsInterval,
    event: PollEvent,
    action: Option<PollAction>,
)
    requires
        call_ensures(OsInterval::poll_tick, (iv, event), action),
    ensures
        final(iv).timeline() == old(iv).timeline(),
        event is TimerPending ==> final(iv)@ == old(iv)@ && (action matches Some(
            PollAction::Pending,
        )),
        event !is TimerPending ==> exists|now: TimePoint| #[trigger]
            call_ensures(Clock::now, (&old(iv).timeline(),), now) && 0 <= now@
                <= 9_223_372_036_854_775_807_999_999_999 && steps(
                old(iv)@,
                event,
                now@,
                final(iv)@,
                action,
            ),
{
    if event != PollEvent::TimerPending {
        let now = choose|now: TimePoint| #[trigger]
            old(iv).timeline().reads(now) && steps(old(iv)@, event, now@, final(iv)@, action);
        law_readings_come_from_the_clock(old(iv).timeline(), now);
        assert(call_ensures(Clock::now, (&old(iv).timeline(),), now));
    }
}

/// A ticker exists exactly where its timer was set up, with the period it was given; otherwise the
/// error of the setup is handed on.
pub proof fn law_ticker_needs_its_timer<E>(
    period: Duration,
    timer: Result<(), E>,
    iv: Result<PeriodicInterval, E>,
)
    requires
        call_ensures(PeriodicInterval::new::<E>, (period, timer), iv),
    ensures
        iv is Ok <==> timer is Ok,
        iv matches Ok(iv) ==> iv@ == period@,
        iv matches Ok(iv) ==> forall|told: Duration| #[trigger]
            call_ensures(PeriodicInterval::period, (&iv,), told) ==> told@ == period@,
        timer matches Err(error) ==> iv == Err::<PeriodicInterval, E>(error),
{
}

/// A tick ends with the count that was read, with the failure of the reactor or of a read, or in
/// waiting for the reactor; a signal and a read that found nothing lead back to the reactor, and a
/// descriptor that is readable is read. The ticker itself does not change.
pub proof fn law_ticker_answers_each_event<E>(
    iv: &mut PeriodicInterval,
    event: FdEvent<Expirations, E>,
    action: FdAction<Expirations, E>,
)
    requires
        call_ensures(PeriodicInterval::poll_tick::<E>, (iv, event), action),
    ensures
        *final(iv) == *old(iv),
        match event {
            FdEvent::NotReady => action is Pending,
            FdEvent::Readable => action is Read,
            FdEvent::Completed(count) => action == FdAction::<Expirations, E>::Ready(count),
            FdEvent::WouldBlock => action is PollAgain,
            FdEvent::ReactorFailed(error) => action == FdAction::<Expirations, E>::Fail(error),
            FdEvent::ReadFailed(ErrorKind::Interrupted, _) => action is PollAgain,
            FdEvent::ReadFailed(ErrorKind::Other, error) => action == FdAction::<
                Expirations,
                E,
            >::Fail(error),
        },
{
}

/// An interval can be made with every period that is not empty, at every start, and so can a
/// ticker, however its timer went.
pub proof fn law_every_period_but_none_is_accepted<E>(
    clock: Clock,
    start: TimePoint,
    period: Duration,
    timer: Result<(), E>,
)
    requires
        period@ > 0,
    ensures
        call_requires(interval, (period,)),
        call_requires(interval_at, (clock, start, period)),
        call_requires(PeriodicInterval::new::<E>, (period, timer)),
{
}

/// A span can be made of every number of seconds and of nanoseconds that are less than a second.
pub proof fn law_every_span_can_be_made(secs: u64, nanos: u32)
    requires
        nanos < 1_000_000_000,
    ensures
        call_requires(Duration::new, (secs, nanos)),
{
}

/// The deadline that follows can be asked for wherever it is in range; this is so, whatever the
/// behavior, where a period fits behind the later of the deadline before and the present moment.
pub proof fn law_next_deadline_can_be_asked_for(
    behavior: MissedTickBehavior,
    prev: TimePoint,
    now: TimePoint,
    period: Duration,
)
    requires
        -18_446_744_073_709_551_615_999_999_999 <= prev@,
        -18_446_744_073_709_551_615_999_999_999 <= now@,
        prev@ + period@ <= 9_223_372_036_854_775_807_999_999_999,
        now@ + period@ <= 9_223_372_036_854_775_807_999_999_999,
    ensures
        call_requires(MissedTickBehavior::next_deadline, (behavior, prev, now, period)),
{
    let p = period@;
    let n = periods_to_skip(non_negative(now@ - prev@), p);
    if p == 0 {
        assert(p * n == 0) by (nonlinear_arith)
            requires
                p == 0,
        ;
    } else if now@ < prev@ + p {
        law_burst_and_skip_agree_within_a_period(prev@, now@, p);
    } else if now@ - prev@ < 4_294_967_295 * p {
        lemma_skip_finds_the_least_multiple(prev@, now@, p);
    } else {
        law_skip_of_a_huge_delay_is_cut_short(prev@, now@, p);
        assert(4_294_967_295 * p >= 0) by (nonlinear_arith);
    }
}

} // verus!
