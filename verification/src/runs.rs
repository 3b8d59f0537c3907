//! Laws of an interval over several steps: what polling, waiting and resetting amount to.

use vstd::prelude::*;

use crate::behavior::{missed, MissedTickBehavior};
use crate::interval::{IntervalState, PollEvent, PollOutcome};
use crate::schedule::deadline_after;

verus! {

/// An event that was answered, and the clock's reading at that moment.
pub struct Seen {
    /// The event.
    pub event: PollEvent,
    /// The reading of the clock.
    pub now: int,
}

/// The state of an interval after the events in `seen`, one after the other.
pub open spec fn run(start: IntervalState, seen: Seq<Seen>) -> IntervalState
    decreases seen.len(),
{
    if seen.len() == 0 {
        start
    } else {
        run(start, seen.drop_last()).next(seen.last().event, seen.last().now)
    }
}

/// The moments at which ticks were delivered during `seen`.
pub open spec fn observations(start: IntervalState, seen: Seq<Seen>) -> Seq<int>
    decreases seen.len(),
{
    if seen.len() == 0 {
        Seq::empty()
    } else {
        let before = observations(start, seen.drop_last());
        if run(start, seen.drop_last()).delivers(seen.last().event, seen.last().now) {
            before.push(seen.last().now)
        } else {
            before
        }
    }
}

/// The deadlines that the ticks delivered during `seen` were scheduled for.
pub open spec fn delivered(start: IntervalState, seen: Seq<Seen>) -> Seq<int>
    decreases seen.len(),
{
    if seen.len() == 0 {
        Seq::empty()
    } else {
        let before = delivered(start, seen.drop_last());
        match run(start, seen.drop_last()).answer(seen.last().event, seen.last().now) {
            PollOutcome::Ready { deadline, .. } => before.push(deadline),
            _ => before,
        }
    }
}

/// Every step keeps an interval's state valid.
pub proof fn law_validity_is_kept(
    state: IntervalState,
    event: PollEvent,
    now: int,
    deadline: int,
    behavior: MissedTickBehavior,
)
    requires
        state.valid(),
    ensures
        state.next(event, now).valid(),
        state.moved_to(deadline).valid(),
        (IntervalState { behavior, ..state }).valid(),
{
}

/// A new interval yields its first tick as soon as it is polled: no reading of its clock is
/// before the start.
pub proof fn law_first_tick_is_immediate(period: nat, now: int)
    requires
        now >= 0,
    ensures
        IntervalState::fresh(0, period).answer(PollEvent::Polled, now) == (PollOutcome::Ready {
            deadline: 0,
            disarm: false,
        }),
{
}

/// An interval that starts in the future does not tick before: it arms the timer for the start.
pub proof fn law_first_tick_waits_for_the_start(start: int, period: nat, now: int)
    requires
        now < start,
    ensures
        IntervalState::fresh(start, period).answer(PollEvent::Polled, now)
            == PollOutcome::AwaitTimer(Some(start)),
{
}

/// Waiting loses nothing: until a tick is delivered, the deadline, the period and the behavior
/// stay what they are, and the tick that was waited for is the one delivered in the end.
pub proof fn law_waiting_loses_no_progress(
    state: IntervalState,
    event: PollEvent,
    now: int,
    later: Seen,
)
    requires
        !state.delivers(event, now),
        state.next(event, now).delivers(later.event, later.now),
    ensures
        state.next(event, now).next_deadline == state.next_deadline,
        state.next(event, now).period == state.period,
        state.next(event, now).behavior == state.behavior,
        state.next(event, now).answer(later.event, later.now) matches PollOutcome::Ready {
            deadline,
            ..
        } && deadline == state.next_deadline,
        state.next(event, now).next(later.event, later.now) == state.after_tick(later.now),
{
}

/// The timer is armed once per deadline: polling again before the deadline does not arm it a
/// second time.
pub proof fn law_polling_again_does_not_arm_again(state: IntervalState, now: int, later: int)
    requires
        now < state.next_deadline,
        later < state.next_deadline,
    ensures
        state.next(PollEvent::Polled, now).answer(PollEvent::Polled, later)
            == PollOutcome::AwaitTimer(None),
        state.next(PollEvent::Polled, now).next(PollEvent::Polled, later) == state.next(
            PollEvent::Polled,
            now,
        ),
{
}

/// A reset takes effect on the next poll, whatever came before: the tick is delivered if its new
/// deadline has passed, and otherwise the timer is armed for the new deadline.
pub proof fn law_reset_takes_effect_on_the_next_poll(state: IntervalState, deadline: int, now: int)
    ensures
        state.moved_to(deadline).answer(PollEvent::Polled, now) == if deadline <= now {
            PollOutcome::Ready { deadline, disarm: false }
        } else {
            PollOutcome::AwaitTimer(Some(deadline))
        },
        state.moved_to(deadline).period == state.period,
        state.moved_to(deadline).behavior == state.behavior,
{
}

/// Only the last of several resets counts.
pub proof fn law_last_reset_wins(state: IntervalState, first: int, second: int)
    ensures
        state.moved_to(first).moved_to(second) == state.moved_to(second),
{
}

/// A poll delivers the tick, without the timer, exactly where its deadline has passed.
pub proof fn law_poll_delivers_what_is_due(state: IntervalState, now: int)
    ensures
        state.next_deadline <= now ==> state.answer(PollEvent::Polled, now) == (
        PollOutcome::Ready { deadline: state.next_deadline, disarm: state.armed_for is Some }),
        state.next_deadline > now ==> state.answer(PollEvent::Polled, now) is AwaitTimer,
{
}

/// The deadlines of a run follow the schedule of its behavior: after the run, and at each
/// delivered tick, the deadline is the one that the observations so far lead to.
pub proof fn law_run_follows_the_schedule(start: IntervalState, seen: Seq<Seen>)
    ensures
        run(start, seen).period == start.period,
        run(start, seen).behavior == start.behavior,
        run(start, seen).next_deadline == deadline_after(
            start.behavior,
            start.next_deadline,
            start.period,
            observations(start, seen),
        ),
        delivered(start, seen).len() == observations(start, seen).len(),
        forall|i: int|
            0 <= i < delivered(start, seen).len() ==> #[trigger] delivered(start, seen)[i]
                == deadline_after(
                start.behavior,
                start.next_deadline,
                start.period,
                observations(start, seen).take(i),
            ),
    decreases seen.len(),
{
    if seen.len() > 0 {
        let earlier = seen.drop_last();
        law_run_follows_the_schedule(start, earlier);
        let before = observations(start, earlier);
        let all = observations(start, seen);
        if run(start, earlier).delivers(seen.last().event, seen.last().now) {
            assert(all.drop_last() =~= before);
            assert(all.take(before.len() as int) =~= before);
            assert forall|i: int| 0 <= i < before.len() implies #[trigger] all.take(i)
                =~= before.take(i) by {}
        }
    }
}

/// Under [`MissedTickBehavior::Burst`] the `i`-th delivered tick was scheduled exactly `i` periods
/// after the first, however late the ticks before it were.
pub proof fn law_burst_delivers_every_tick_on_schedule(
    start: IntervalState,
    seen: Seq<Seen>,
    i: int,
)
    requires
        start.behavior == MissedTickBehavior::Burst,
        0 <= i < delivered(start, seen).len(),
    ensures
        delivered(start, seen)[i] == start.next_deadline + i * start.period,
{
    law_run_follows_the_schedule(start, seen);
    crate::schedule::law_burst_keeps_every_deadline(
        start.next_deadline,
        start.period,
        observations(start, seen).take(i),
    );
}

/// Under [`MissedTickBehavior::Skip`] every delivered tick was scheduled a whole number of periods
/// after the first.
pub proof fn law_skip_delivers_on_schedule(start: IntervalState, seen: Seq<Seen>, i: int)
    requires
        start.behavior == MissedTickBehavior::Skip,
        0 <= i < delivered(start, seen).len(),
    ensures
        crate::schedule::on_schedule(
            start.next_deadline,
            start.period,
            delivered(start, seen)[i],
        ),
{
    law_run_follows_the_schedule(start, seen);
    crate::schedule::law_skip_keeps_the_schedule(
        start.next_deadline,
        start.period,
        observations(start, seen).take(i),
    );
}

/// Under [`MissedTickBehavior::Delay`] every delivered tick but the first was scheduled one period
/// after the tick before it was observed, where that one was missed, and one period after it was
/// due where it was not.
pub proof fn law_delay_delivers_a_period_after_a_missed_tick(
    start: IntervalState,
    seen: Seq<Seen>,
    i: int,
)
    requires
        start.behavior == MissedTickBehavior::Delay,
        0 < i < delivered(start, seen).len(),
    ensures
        delivered(start, seen)[i] == start.period + if missed(
            delivered(start, seen)[i - 1],
            observations(start, seen)[i - 1],
        ) {
            observations(start, seen)[i - 1]
        } else {
            delivered(start, seen)[i - 1]
        },
{
    law_run_follows_the_schedule(start, seen);
    let observed = observations(start, seen);
    crate::schedule::law_delay_restarts_at_a_missed_tick(
        start.next_deadline,
        start.period,
        observed.take(i),
    );
    assert(observed.take(i).drop_last() =~= observed.take(i - 1));
}

/// Something that happens to an interval.
pub enum Happening {
    /// An event is answered.
    Event(Seen),
    /// The next tick is moved to a deadline, and the timer disarmed.
    Moved(int),
    /// The behavior is replaced.
    Behavior(MissedTickBehavior),
}

/// An interval together with its backend timer.
pub struct Driven {
    /// The interval.
    pub state: IntervalState,
    /// The timer was armed, and neither seen to expire nor disarmed since.
    pub outstanding: bool,
}

impl Driven {
    /// The interval has told its timer to arm just where the timer is outstanding.
    pub open spec fn in_step(self) -> bool {
        self.outstanding == (self.state.armed_for is Some)
    }

    /// The owner reports on the timer only while the interval awaits it.
    pub open spec fn plausible(self, what: Happening) -> bool {
        match what {
            Happening::Event(seen) => seen.event != PollEvent::Polled
                ==> self.state.armed_for is Some,
            _ => true,
        }
    }

    /// The timer is armed on `what`.
    pub open spec fn arms(self, what: Happening) -> bool {
        match what {
            Happening::Event(seen) => self.state.answer(seen.event, seen.now) matches
                PollOutcome::AwaitTimer(Some(_)),
            _ => false,
        }
    }

    /// The timer is disarmed on `what`.
    pub open spec fn disarms(self, what: Happening) -> bool {
        match what {
            Happening::Event(seen) => self.state.answer(seen.event, seen.now) matches
                PollOutcome::Ready { disarm: true, .. },
            Happening::Moved(_) => true,
            Happening::Behavior(_) => false,
        }
    }

    /// Interval and timer after `what`.
    pub open spec fn after(self, what: Happening) -> Driven {
        match what {
            Happening::Event(seen) => Driven {
                state: self.state.next(seen.event, seen.now),
                outstanding: if self.arms(what) {
                    true
                } else if self.disarms(what) || seen.event == PollEvent::TimerExpired {
                    false
                } else {
                    self.outstanding
                },
            },
            Happening::Moved(deadline) => Driven {
                state: self.state.moved_to(deadline),
                outstanding: false,
            },
            Happening::Behavior(behavior) => Driven {
                state: IntervalState { behavior, ..self.state },
                outstanding: self.outstanding,
            },
        }
    }
}

/// Interval and timer after all of `what`, one after the other.
pub open spec fn drive(start: Driven, what: Seq<Happening>) -> Driven
    decreases what.len(),
{
    if what.len() == 0 {
        start
    } else {
        drive(start, what.drop_last()).after(what.last())
    }
}

/// Between ticks the timer is idle: once a tick was delivered, by its timer or by the clock alone,
/// nothing is armed until the interval is polled again.
pub proof fn law_timer_is_idle_between_ticks(
    driven: Driven,
    seen: Seen,
    behavior: MissedTickBehavior,
)
    requires
        driven.in_step(),
        driven.state.delivers(seen.event, seen.now),
    ensures
        !driven.after(Happening::Event(seen)).outstanding,
        !driven.after(Happening::Event(seen)).after(Happening::Behavior(behavior)).outstanding,
{
}

/// The timer is armed only after it was seen to expire or was disarmed, in every run.
pub proof fn law_timer_is_armed_only_when_idle(start: Driven, what: Seq<Happening>)
    requires
        start.state.valid(),
        start.in_step(),
        forall|i: int|
            0 <= i < what.len() ==> #[trigger] drive(start, what.take(i)).plausible(what[i]),
    ensures
        drive(start, what).state.valid(),
        drive(start, what).in_step(),
        forall|i: int|
            0 <= i < what.len() && #[trigger] drive(start, what.take(i)).arms(what[i]) ==> !drive(
                start,
                what.take(i),
            ).outstanding,
    decreases what.len(),
{
    if what.len() > 0 {
        let n = what.len() - 1;
        let earlier = what.drop_last();
        assert(what.take(n) =~= earlier);
        assert forall|i: int| 0 <= i < n implies #[trigger] drive(start, earlier.take(i)).plausible(
            earlier[i],
        ) by {
            assert(earlier.take(i) =~= what.take(i));
            assert(drive(start, what.take(i)).plausible(what[i]));
        }
        law_timer_is_armed_only_when_idle(start, earlier);
        assert(drive(start, what.take(n)).plausible(what[n]));
        assert forall|i: int|
            0 <= i < what.len() && #[trigger] drive(start, what.take(i)).arms(
                what[i],
            ) implies !drive(start, what.take(i)).outstanding by {
            if i < n {
                assert(earlier.take(i) =~= what.take(i));
                assert(drive(start, earlier.take(i)).arms(earlier[i]));
            }
        }
    }
}

} // verus!
