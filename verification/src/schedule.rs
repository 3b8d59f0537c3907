//! Laws of the schedules that the missed-tick behaviors produce.

use vstd::arithmetic::div_mod::lemma_fundamental_div_mod;
use vstd::arithmetic::mul::{
    lemma_mul_inequality, lemma_mul_is_commutative, lemma_mul_is_distributive_add,
};
use vstd::prelude::*;

use crate::behavior::{
    following_deadline, missed, periods_to_skip, scheduled_after, MissedTickBehavior,
};
use crate::time::non_negative;

verus! {

/// The deadline that is due once the ticks before it, the first of them scheduled for `start`,
/// have been observed at the moments in `observed`.
pub open spec fn deadline_after(
    behavior: MissedTickBehavior,
    start: int,
    period: nat,
    observed: Seq<int>,
) -> int
    decreases observed.len(),
{
    if observed.len() == 0 {
        start
    } else {
        scheduled_after(
            behavior,
            deadline_after(behavior, start, period, observed.drop_last()),
            observed.last(),
            period,
        )
    }
}

/// `point` is a whole number of periods away from `start`.
pub open spec fn on_schedule(start: int, period: nat, point: int) -> bool {
    exists|k: int| point == start + #[trigger] (k * period)
}

/// Each tick was observed no earlier than it was scheduled.
pub open spec fn observed_when_due(
    behavior: MissedTickBehavior,
    start: int,
    period: nat,
    observed: Seq<int>,
) -> bool {
    forall|i: int|
        0 <= i < observed.len() ==> deadline_after(behavior, start, period, observed.take(i))
            <= #[trigger] observed[i]
}

/// The whole periods in a span stay within it, and one more leads past it.
proof fn lemma_whole_periods(span: nat, period: nat)
    requires
        period > 0,
    ensures
        period * (span / period) <= span < period * (span / period + 1),
{
    lemma_fundamental_div_mod(span as int, period as int);
    lemma_mul_is_distributive_add(period as int, (span / period) as int, 1);
}

/// A tick that was not missed leaves the schedule as it is: whatever the behavior, the next one is
/// due a period after it was.
pub proof fn law_tick_on_time_keeps_the_schedule(
    behavior: MissedTickBehavior,
    prev: int,
    now: int,
    period: nat,
)
    requires
        !missed(prev, now),
    ensures
        scheduled_after(behavior, prev, now, period) == prev + period,
{
}

/// Under [`MissedTickBehavior::Burst`] a late observation never moves the schedule: after `n`
/// ticks, whenever they were observed, the next deadline lies exactly `n` periods after the
/// start. No error adds up from tick to tick.
pub proof fn law_burst_keeps_every_deadline(start: int, period: nat, observed: Seq<int>)
    ensures
        deadline_after(MissedTickBehavior::Burst, start, period, observed) == start + observed.len()
            * period,
    decreases observed.len(),
{
    if observed.len() > 0 {
        law_burst_keeps_every_deadline(start, period, observed.drop_last());
        lemma_mul_is_distributive_add(period as int, observed.len() - 1, 1);
        lemma_mul_is_commutative(period as int, observed.len() as int);
        lemma_mul_is_commutative(period as int, observed.len() - 1);
    } else {
        lemma_mul_is_commutative(0, period as int);
    }
}

/// Under [`MissedTickBehavior::Burst`] ticks are due at once until the schedule has caught up:
/// of the deadlines from `prev` on, exactly the first `(now - prev) / period + 1` have passed at
/// `now`.
pub proof fn law_burst_ticks_until_caught_up(
    prev: int,
    now: int,
    period: nat,
    observed: Seq<int>,
)
    requires
        period > 0,
        prev <= now,
    ensures
        deadline_after(MissedTickBehavior::Burst, prev, period, observed) <= now
            <==> observed.len() <= (now - prev) / period as int,
{
    let n = observed.len() as int;
    let p = period as int;
    let late = now - prev;
    law_burst_keeps_every_deadline(prev, period, observed);
    lemma_fundamental_div_mod(late, p);
    if n <= late / p {
        lemma_mul_inequality(n, late / p, p);
        lemma_mul_is_commutative(p, late / p);
    } else {
        lemma_mul_inequality(late / p + 1, n, p);
        lemma_mul_is_distributive_add(p, late / p, 1);
        lemma_mul_is_commutative(p, late / p + 1);
    }
}

/// Under [`MissedTickBehavior::Delay`] the next deadline lies one period after the last tick was
/// observed, where that tick was missed, and one period after it was due where it was not.
pub proof fn law_delay_restarts_at_a_missed_tick(start: int, period: nat, observed: Seq<int>)
    requires
        observed.len() > 0,
    ensures
        ({
            let due = deadline_after(
                MissedTickBehavior::Delay,
                start,
                period,
                observed.drop_last(),
            );
            deadline_after(MissedTickBehavior::Delay, start, period, observed) == period + if missed(
                due,
                observed.last(),
            ) {
                observed.last()
            } else {
                due
            }
        }),
{
}

/// Under [`MissedTickBehavior::Skip`] every deadline is a whole number of periods after the
/// start, whenever the ticks were observed.
pub proof fn law_skip_keeps_the_schedule(start: int, period: nat, observed: Seq<int>)
    ensures
        on_schedule(
            start,
            period,
            deadline_after(MissedTickBehavior::Skip, start, period, observed),
        ),
    decreases observed.len(),
{
    let p = period as int;
    if observed.len() == 0 {
        assert(start == start + 0 * p);
    } else {
        law_skip_keeps_the_schedule(start, period, observed.drop_last());
        let prev = deadline_after(
            MissedTickBehavior::Skip,
            start,
            period,
            observed.drop_last(),
        );
        let now = observed.last();
        let k = choose|k: int| prev == start + #[trigger] (k * p);
        let n: int = if missed(prev, now) {
            periods_to_skip(non_negative(now - prev), period) as int
        } else {
            1
        };
        lemma_mul_is_distributive_add(p, k, n);
        lemma_mul_is_commutative(p, k);
        lemma_mul_is_commutative(p, n);
        lemma_mul_is_commutative(p, k + n);
        assert(deadline_after(MissedTickBehavior::Skip, start, period, observed) == start + (k
            + n) * p);
    }
}

/// From a missed tick [`MissedTickBehavior::Skip`] goes to the first point of the schedule that
/// lies after `now`: at most one period away, and no earlier multiple of the period would do. The
/// delay must be less than `u32::MAX` periods.
pub proof fn law_skip_goes_to_the_next_multiple(prev: int, now: int, period: nat)
    requires
        period > 0,
        prev <= now,
        now - prev < u32::MAX * period,
    ensures
        following_deadline(MissedTickBehavior::Skip, prev, now, period) == now + period - (now
            - prev) % period as int,
        now < following_deadline(MissedTickBehavior::Skip, prev, now, period) <= now + period,
        on_schedule(
            prev,
            period,
            following_deadline(MissedTickBehavior::Skip, prev, now, period),
        ),
        forall|k: int|
            now < prev + #[trigger] (k * period) ==> following_deadline(
                MissedTickBehavior::Skip,
                prev,
                now,
                period,
            ) <= prev + k * period,
{
    let p = period as int;
    let late = (now - prev) as nat;
    let whole = late / period;
    lemma_whole_periods(late, period);
    lemma_fundamental_div_mod(late as int, p);
    assert(whole < u32::MAX) by (nonlinear_arith)
        requires
            p * whole <= late,
            late < u32::MAX * p,
            p > 0,
    ;
    let needed: int = whole as int + 1;
    let next = following_deadline(MissedTickBehavior::Skip, prev, now, period);
    assert(next == prev + p * needed);
    lemma_mul_is_distributive_add(p, whole as int, 1);
    lemma_mul_is_commutative(p, needed);
    assert(next == prev + needed * p);
    assert forall|k: int| now < prev + #[trigger] (k * p) implies next <= prev + k * p by {
        if k < needed {
            lemma_mul_inequality(k, whole as int, p);
            lemma_mul_is_commutative(p, whole as int);
        } else {
            lemma_mul_inequality(needed, k, p);
        }
    }
}

/// A delay of `u32::MAX` periods or more is not made up at once: the deadline moves by `u32::MAX`
/// periods and is still due.
pub proof fn law_skip_of_a_huge_delay_is_cut_short(prev: int, now: int, period: nat)
    requires
        period > 0,
        now - prev >= u32::MAX * period,
    ensures
        following_deadline(MissedTickBehavior::Skip, prev, now, period) == prev + u32::MAX * period,
        following_deadline(MissedTickBehavior::Skip, prev, now, period) <= now,
{
    let p = period as int;
    lemma_mul_inequality(0, u32::MAX as int, p);
    let late = (now - prev) as nat;
    let whole = late / period;
    lemma_whole_periods(late, period);
    assert(whole + 1 > u32::MAX) by (nonlinear_arith)
        requires
            late < p * (whole + 1),
            late >= u32::MAX * p,
            p > 0,
    ;
    lemma_mul_is_commutative(p, u32::MAX as int);
}

/// Where no further deadline has come up since `prev`, [`MissedTickBehavior::Skip`] has nothing to
/// skip and goes on as [`MissedTickBehavior::Burst`] does.
pub proof fn law_burst_and_skip_agree_within_a_period(prev: int, now: int, period: nat)
    requires
        now < prev + period,
    ensures
        following_deadline(MissedTickBehavior::Burst, prev, now, period) == prev + period,
        following_deadline(MissedTickBehavior::Skip, prev, now, period) == prev + period,
{
    if period > 0 {
        let late = non_negative(now - prev);
        let whole = late / period;
        lemma_whole_periods(late, period);
        assert(whole == 0) by (nonlinear_arith)
            requires
                period * whole <= late,
                late < period,
                whole >= 0,
        ;
        let n = periods_to_skip(late, period);
        assert(period * n == period) by (nonlinear_arith)
            requires
                n == 1,
        ;
    } else {
        assert(period * periods_to_skip(non_negative(now - prev), period) == 0) by (nonlinear_arith)
            requires
                period == 0,
        ;
    }
}

/// A tick observed at its deadline is followed by one a period later, under every behavior.
pub proof fn law_punctual_ticks_are_one_period_apart(
    behavior: MissedTickBehavior,
    due: int,
    period: nat,
)
    ensures
        following_deadline(behavior, due, due, period) == due + period,
        scheduled_after(behavior, due, due, period) == due + period,
{
    if period > 0 {
        law_burst_and_skip_agree_within_a_period(due, due, period);
    }
}

/// A deadline that was due is followed by one at least a period later.
pub proof fn law_deadlines_advance(
    behavior: MissedTickBehavior,
    prev: int,
    now: int,
    period: nat,
)
    requires
        prev <= now,
    ensures
        following_deadline(behavior, prev, now, period) >= prev + period,
        scheduled_after(behavior, prev, now, period) >= prev + period,
{
    let n = periods_to_skip(non_negative(now - prev), period);
    assert(n >= 1);
    assert(period * n >= period) by (nonlinear_arith)
        requires
            n >= 1,
    ;
}

/// The deadlines of a whole run lie at least a period apart: the one after `j` observations comes
/// at least `j - i` periods after the one after `i`, where no tick was observed before it was due.
pub proof fn law_ticks_are_scheduled_in_order(
    behavior: MissedTickBehavior,
    start: int,
    period: nat,
    observed: Seq<int>,
    i: int,
    j: int,
)
    requires
        observed_when_due(behavior, start, period, observed),
        0 <= i <= j <= observed.len(),
    ensures
        deadline_after(behavior, start, period, observed.take(i)) + (j - i) * period
            <= deadline_after(behavior, start, period, observed.take(j)),
    decreases j,
{
    if i < j {
        let before = observed.take(j).drop_last();
        assert(before =~= observed.take(j - 1));
        assert(observed.take(j).last() == observed[j - 1]);
        law_deadlines_advance(
            behavior,
            deadline_after(behavior, start, period, before),
            observed[j - 1],
            period,
        );
        law_ticks_are_scheduled_in_order(behavior, start, period, observed, i, j - 1);
        assert((j - i) * period == (j - 1 - i) * period + period) by (nonlinear_arith);
    } else {
        assert(0 * period == 0);
    }
}

} // verus!
