//! The interval itself: deadlines, ticks and resets.
//!
//! The owner of an [`OsInterval`] also owns a one-shot backend timer. It hands every
//! [`PollEvent`] to [`OsInterval::poll_tick`], carries out the [`PollAction`] that comes back, and
//! disarms the timer whenever that action or a reset hands it a [`Disarm`]. So the timer is idle
//! whenever it is to be armed.

use vstd::prelude::*;

use crate::behavior::{scheduled_after, MissedTickBehavior};
use crate::clock::Clock;
use crate::time::{representable, Duration, TimePoint};

verus! {

/// What the owner of an interval reports while one of its ticks is awaited.
#[derive(Debug, Clone, Copy, PartialEq, Eq, Structural)]
pub enum PollEvent {
    /// The task asks for the next tick.
    Polled,
    /// The backend timer, armed for the current deadline, has expired.
    TimerExpired,
    /// The backend timer has not expired and will wake the task when it does.
    TimerPending,
}

/// What the owner of an interval is to do next.
#[derive(Debug, Clone, Copy, PartialEq, Eq, Structural)]
pub enum PollAction {
    /// Disarm the backend timer, if there is a request to, then deliver the tick.
    Ready {
        /// The deadline that the tick was scheduled for.
        deadline: TimePoint,
        /// A request to disarm the timer, where it is still armed for the tick.
        disarm: Option<Disarm>,
    },
    /// Arm the backend timer for `arm`, if there is one, then poll the timer.
    AwaitTimer {
        /// The deadline to arm for; `None` where the timer is armed already.
        arm: Option<TimePoint>,
    },
    /// Tell the task to wait.
    Pending,
}

/// The backend timer is to be disarmed, and expirations it has pending are to be dropped.
#[must_use]
#[derive(Debug, Clone, Copy, PartialEq, Eq, Structural)]
pub struct Disarm;

/// The state of an [`OsInterval`], in nanoseconds on its clock's timeline.
pub struct IntervalState {
    /// The nanoseconds between scheduled ticks.
    pub period: nat,
    /// What happens when a tick is missed.
    pub behavior: MissedTickBehavior,
    /// The deadline of the next tick to deliver.
    pub next_deadline: int,
    /// The deadline that the backend timer was last told to arm for, if it still counts.
    pub armed_for: Option<int>,
}

/// A [`PollAction`], in nanoseconds on the interval's timeline.
pub enum PollOutcome {
    /// See [`PollAction::Ready`].
    Ready {
        /// The deadline that the tick was scheduled for.
        deadline: int,
        /// The backend timer is to be disarmed first.
        disarm: bool,
    },
    /// See [`PollAction::AwaitTimer`].
    AwaitTimer(Option<int>),
    /// See [`PollAction::Pending`].
    Pending,
}

/// The position of an optional point.
pub open spec fn position(t: Option<TimePoint>) -> Option<int> {
    match t {
        Some(t) => Some(t@),
        None => None,
    }
}

impl View for PollAction {
    type V = PollOutcome;

    open spec fn view(&self) -> PollOutcome {
        match *self {
            PollAction::Ready { deadline, disarm } => PollOutcome::Ready {
                deadline: deadline@,
                disarm: disarm is Some,
            },
            PollAction::AwaitTimer { arm } => PollOutcome::AwaitTimer(position(arm)),
            PollAction::Pending => PollOutcome::Pending,
        }
    }
}

impl IntervalState {
    /// Periods are never empty, and the backend timer is armed for no deadline but the next one.
    pub open spec fn valid(self) -> bool {
        &&& self.period > 0
        &&& self.armed_for is Some ==> self.armed_for == Some(self.next_deadline)
    }

    /// A new interval: the first tick is due at `start`.
    pub open spec fn fresh(start: int, period: nat) -> IntervalState {
        IntervalState {
            period,
            behavior: MissedTickBehavior::Burst,
            next_deadline: start,
            armed_for: None,
        }
    }

    /// The deadline that follows the current one when its tick is observed at `now`.
    pub open spec fn deadline_after_tick(self, now: int) -> int {
        scheduled_after(self.behavior, self.next_deadline, now, self.period)
    }

    /// The state once the current tick was observed at `now`.
    pub open spec fn after_tick(self, now: int) -> IntervalState {
        IntervalState { next_deadline: self.deadline_after_tick(now), armed_for: None, ..self }
    }

    /// The state once the next tick was moved to `deadline`.
    pub open spec fn moved_to(self, deadline: int) -> IntervalState {
        IntervalState { next_deadline: deadline, armed_for: None, ..self }
    }

    /// The state once the backend timer was told to arm for the current deadline.
    pub open spec fn armed(self) -> IntervalState {
        IntervalState { armed_for: Some(self.next_deadline), ..self }
    }

    /// A tick is delivered on `event`, seen at `now`.
    pub open spec fn delivers(self, event: PollEvent, now: int) -> bool {
        match event {
            PollEvent::Polled => self.next_deadline <= now,
            PollEvent::TimerExpired => true,
            PollEvent::TimerPending => false,
        }
    }

    /// The deadline that has to be computed on `event`, seen at `now`, can be represented.
    pub open spec fn can_follow(self, event: PollEvent, now: int) -> bool {
        self.delivers(event, now) ==> representable(self.deadline_after_tick(now))
    }

    /// The state after `event`, seen at `now`.
    pub open spec fn next(self, event: PollEvent, now: int) -> IntervalState {
        if self.delivers(event, now) {
            self.after_tick(now)
        } else if event == PollEvent::Polled {
            self.armed()
        } else {
            self
        }
    }

    /// The answer to `event`, seen at `now`.
    pub open spec fn answer(self, event: PollEvent, now: int) -> PollOutcome {
        if self.delivers(event, now) {
            PollOutcome::Ready {
                deadline: self.next_deadline,
                disarm: event == PollEvent::Polled && self.armed_for is Some,
            }
        } else if event == PollEvent::Polled {
            PollOutcome::AwaitTimer(
                if self.armed_for == Some(self.next_deadline) {
                    None
                } else {
                    Some(self.next_deadline)
                },
            )
        } else {
            PollOutcome::Pending
        }
    }
}

/// A periodic timer whose ticks are delivered by a one-shot backend timer that is armed anew for
/// every tick.
#[derive(Debug)]
pub struct OsInterval {
    period: Duration,
    behavior: MissedTickBehavior,
    /// The deadline of the next tick to deliver.
    next_deadline: TimePoint,
    /// The deadline the backend timer is armed for, if any: it is not armed twice for one.
    armed_for: Option<TimePoint>,
    clock: Clock,
}

impl View for OsInterval {
    type V = IntervalState;

    closed spec fn view(&self) -> IntervalState {
        IntervalState {
            period: self.period@,
            behavior: self.behavior,
            next_deadline: self.next_deadline@,
            armed_for: position(self.armed_for),
        }
    }
}

/// Creates an interval on a clock of its own that yields its first tick immediately and then once
/// every `period`.
pub fn interval(period: Duration) -> (iv: OsInterval)
    requires
        period@ > 0,
    ensures
        iv@ == IntervalState::fresh(0, period@),
        call_ensures(tokio::time::Instant::now, (), iv.timeline().origin),
{
    let clock = Clock::start();
    interval_at(clock, TimePoint::origin(), period)
}

/// Creates an interval that yields its first tick at `start`, a point on the timeline of `clock`,
/// and then once every `period`.
pub fn interval_at(clock: Clock, start: TimePoint, period: Duration) -> (iv: OsInterval)
    requires
        period@ > 0,
    ensures
        iv@ == IntervalState::fresh(start@, period@),
        iv.timeline() == clock,
{
    OsInterval {
        period,
        behavior: MissedTickBehavior::default(),
        next_deadline: start,
        armed_for: None,
        clock,
    }
}

impl OsInterval {
    #[verifier::type_invariant]
    spec fn state_is_valid(self) -> bool {
        self@.valid()
    }

    /// The clock whose timeline the deadlines lie on.
    pub closed spec fn timeline(self) -> Clock {
        self.clock
    }

    /// Returns the period of this interval.
    pub fn period(&self) -> (period: Duration)
        ensures
            period@ == self@.period,
            period@ > 0,
    {
        proof {
            use_type_invariant(&*self);
        }
        self.period
    }

    /// Returns the current [`MissedTickBehavior`].
    pub fn missed_tick_behavior(&self) -> (behavior: MissedTickBehavior)
        ensures
            behavior == self@.behavior,
    {
        self.behavior
    }

    /// Returns the deadline of the next tick to deliver.
    pub fn next_deadline(&self) -> (deadline: TimePoint)
        ensures
            deadline@ == self@.next_deadline,
    {
        self.next_deadline
    }

    /// Returns the clock whose timeline the deadlines lie on.
    pub fn clock(&self) -> (clock: Clock)
        ensures
            clock == self.timeline(),
    {
        self.clock
    }

    /// Sets the [`MissedTickBehavior`].
    pub fn set_missed_tick_behavior(&mut self, behavior: MissedTickBehavior)
        ensures
            final(self)@ == (IntervalState { behavior, ..old(self)@ }),
            final(self).timeline() == old(self).timeline(),
    {
        proof {
            use_type_invariant(&*self);
        }
        self.behavior = behavior;
    }

    /// Resets the interval so the next tick fires `period` after now.
    ///
    /// Returns `None`, with nothing changed, where that lies beyond the last representable point.
    pub fn reset(&mut self) -> (disarm: Option<Disarm>)
        ensures
            final(self).timeline() == old(self).timeline(),
            exists|now: TimePoint| #[trigger]
                old(self).timeline().reads(now) && moved_if_representable(
                    old(self)@,
                    final(self)@,
                    now@ + old(self)@.period,
                    disarm,
                ),
    {
        let now = self.clock.now();
        assert(self.timeline().reads(now));
        let period = self.period;
        self.reset_after_from(now, period)
    }

    /// Resets the interval so the next tick fires immediately.
    pub fn reset_immediately(&mut self) -> (disarm: Disarm)
        ensures
            final(self).timeline() == old(self).timeline(),
            exists|now: TimePoint| #[trigger]
                old(self).timeline().reads(now) && final(self)@ == old(self)@.moved_to(now@),
    {
        let now = self.clock.now();
        assert(self.timeline().reads(now));
        self.reset_at(now)
    }

    /// Resets the interval so the next tick fires `after` from now.
    ///
    /// Returns `None`, with nothing changed, where that lies beyond the last representable point.
    pub fn reset_after(&mut self, after: Duration) -> (disarm: Option<Disarm>)
        ensures
            final(self).timeline() == old(self).timeline(),
            exists|now: TimePoint| #[trigger]
                old(self).timeline().reads(now) && moved_if_representable(
                    old(self)@,
                    final(self)@,
                    now@ + after@,
                    disarm,
                ),
    {
        let now = self.clock.now();
        assert(self.timeline().reads(now));
        self.reset_after_from(now, after)
    }

    /// Resets the interval so the next tick fires `after` past `now`.
    ///
    /// Returns `None`, with nothing changed, where that lies beyond the last representable point.
    pub fn reset_after_from(&mut self, now: TimePoint, after: Duration) -> (disarm: Option<Disarm>)
        ensures
            final(self).timeline() == old(self).timeline(),
            moved_if_representable(old(self)@, final(self)@, now@ + after@, disarm),
    {
        match now.checked_add(after) {
            Some(deadline) => Some(self.reset_at(deadline)),
            None => None,
        }
    }

    /// Resets the interval so the next tick fires at the given `deadline`.
    pub fn reset_at(&mut self, deadline: TimePoint) -> (disarm: Disarm)
        ensures
            final(self)@ == old(self)@.moved_to(deadline@),
            final(self).timeline() == old(self).timeline(),
    {
        self.set_next_deadline(deadline)
    }

    fn set_next_deadline(&mut self, deadline: TimePoint) -> (disarm: Disarm)
        ensures
            final(self)@ == old(self)@.moved_to(deadline@),
            final(self).timeline() == old(self).timeline(),
    {
        proof {
            use_type_invariant(&*self);
        }
        // Force the backend to be re-armed on the next poll.
        self.armed_for = None;
        self.next_deadline = deadline;
        Disarm
    }

    /// Takes the next step towards a tick: answers `event`, as the clock reads now. The clock is
    /// not asked where the timer is pending.
    ///
    /// Returns `None`, with nothing changed, where the deadline that would follow the tick lies
    /// beyond the last representable point.
    pub fn poll_tick(&mut self, event: PollEvent) -> (action: Option<PollAction>)
        ensures
            final(self).timeline() == old(self).timeline(),
            event == PollEvent::TimerPending ==> final(self)@ == old(self)@ && action == Some(
                PollAction::Pending,
            ),
            event != PollEvent::TimerPending ==> exists|now: TimePoint| #[trigger]
                old(self).timeline().reads(now) && steps(
                    old(self)@,
                    event,
                    now@,
                    final(self)@,
                    action,
                ),
    {
        if event == PollEvent::TimerPending {
            return Some(PollAction::Pending);
        }
        let now = self.clock.now();
        assert(self.timeline().reads(now));
        self.poll_tick_at(event, now)
    }

    /// Takes the next step towards a tick: answers `event`, seen at `now`.
    ///
    /// Returns `None`, with nothing changed, where the deadline that would follow the tick lies
    /// beyond the last representable point.
    pub fn poll_tick_at(&mut self, event: PollEvent, now: TimePoint) -> (action: Option<PollAction>)
        ensures
            final(self).timeline() == old(self).timeline(),
            steps(old(self)@, event, now@, final(self)@, action),
    {
        proof {
            use_type_invariant(&*self);
        }
        let target = self.next_deadline;
        match event {
            PollEvent::Polled => {
                // The deadline is already in the past: deliver without waiting for the timer,
                // which must not stay armed for a deadline that is done with.
                if now.as_nanos() >= target.as_nanos() {
                    let disarm = match self.armed_for {
                        Some(_) => Some(Disarm),
                        None => None,
                    };
                    return self.advance_after_tick(target, now, disarm);
                }
                let arm = match self.armed_for {
                    Some(_) => None,
                    None => Some(target),
                };
                self.armed_for = Some(target);
                Some(PollAction::AwaitTimer { arm })
            },
            PollEvent::TimerExpired => self.advance_after_tick(target, now, None),
            PollEvent::TimerPending => Some(PollAction::Pending),
        }
    }

    /// Delivers the tick `fired`, with the request `disarm`, and moves on to the deadline that
    /// follows it.
    fn advance_after_tick(
        &mut self,
        fired: TimePoint,
        now: TimePoint,
        disarm: Option<Disarm>,
    ) -> (action: Option<PollAction>)
        requires
            fired@ == old(self)@.next_deadline,
        ensures
            final(self).timeline() == old(self).timeline(),
            match action {
                Some(action) => {
                    &&& representable(old(self)@.deadline_after_tick(now@))
                    &&& final(self)@ == old(self)@.after_tick(now@)
                    &&& action == PollAction::Ready { deadline: fired, disarm }
                },
                None => {
                    &&& !representable(old(self)@.deadline_after_tick(now@))
                    &&& final(self)@ == old(self)@
                },
            },
    {
        proof {
            use_type_invariant(&*self);
        }
        match self.behavior.checked_deadline_after(fired, now, self.period) {
            Some(next) => {
                self.armed_for = None;
                self.next_deadline = next;
                Some(PollAction::Ready { deadline: fired, disarm })
            },
            None => None,
        }
    }
}

/// `after` is `before` with its next tick moved to `deadline`, or `before` itself, and no request
/// to disarm, where `deadline` cannot be represented.
pub open spec fn moved_if_representable(
    before: IntervalState,
    after: IntervalState,
    deadline: int,
    disarm: Option<Disarm>,
) -> bool {
    if representable(deadline) {
        after == before.moved_to(deadline) && disarm is Some
    } else {
        after == before && disarm is None
    }
}

/// `event`, seen at `now`, takes an interval from `before` to `after` and is answered with
/// `action`; where the following deadline cannot be represented nothing changes and there is no
/// answer.
pub open spec fn steps(
    before: IntervalState,
    event: PollEvent,
    now: int,
    after: IntervalState,
    action: Option<PollAction>,
) -> bool {
    match action {
        Some(action) => {
            &&& before.can_follow(event, now)
            &&& after == before.next(event, now)
            &&& action@ == before.answer(event, now)
        },
        None => {
            &&& !before.can_follow(event, now)
            &&& after == before
        },
    }
}

} // verus!
