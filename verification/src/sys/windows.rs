//! Windows: due times for waitable and threadpool timers, the state shared with their callbacks,
//! and the choice between the two.

use vstd::prelude::*;

use crate::clock::Clock;
use crate::sys::one_shot::OneShot;
use crate::time::{clamped, span_between, Duration, TimePoint};

verus! {

/// A 64-bit count of 100-nanosecond intervals in two halves, as `FILETIME` has it.
#[derive(Debug, Clone, Copy, PartialEq, Eq, Structural)]
pub struct FileTime {
    /// The low half.
    pub low_date_time: u32,
    /// The high half.
    pub high_date_time: u32,
}

impl FileTime {
    /// The count that the halves make up, read as a signed number.
    pub open spec fn signed(self) -> int {
        let bits = self.high_date_time * 0x1_0000_0000 + self.low_date_time;
        if bits >= 0x8000_0000_0000_0000 {
            bits - 0x1_0000_0000_0000_0000
        } else {
            bits
        }
    }
}

/// The number of whole 100-nanosecond intervals in `nanos` nanoseconds, but at least one and at
/// most `i64::MAX`.
pub open spec fn due_intervals(nanos: nat) -> int {
    clamped(
        if nanos / 100 == 0 {
            1
        } else {
            nanos / 100
        },
    )
}

/// `value`, or `i64::MAX` where `value` is greater.
pub fn clamp_to_i64(value: u128) -> (r: i64)
    ensures
        r == clamped(value as nat),
{
    if value > i64::MAX as u128 {
        i64::MAX
    } else {
        value as i64
    }
}

/// The due time of a timer that is to expire after `d`, in 100-nanosecond intervals.
///
/// It is negative, which makes it relative: a due time that is not would be taken for a date.
pub fn relative_due_time(d: Duration) -> (due: i64)
    ensures
        due == -due_intervals(d@),
        due < 0,
{
    let hundred_ns: u128 = d.as_nanos() / 100;
    let at_least_one: u128 = if hundred_ns == 0 { 1 } else { hundred_ns };
    -clamp_to_i64(at_least_one)
}

/// [`relative_due_time`] of `d` in two halves.
pub fn relative_filetime(d: Duration) -> (due: FileTime)
    ensures
        due.signed() == -due_intervals(d@),
{
    let signed: i64 = relative_due_time(d);
    let bits: u64 = signed as u64;
    let low: u32 = (bits & 0xffff_ffff) as u32;
    let high: u32 = (bits >> 32) as u32;
    proof {
        assert(bits == signed + 0x1_0000_0000_0000_0000) by (bit_vector)
            requires
                bits == signed as u64,
                signed < 0,
        ;
        assert(((bits >> 32) as u32) * 0x1_0000_0000 + ((bits & 0xffff_ffff) as u32) == bits)
            by (bit_vector);
    }
    FileTime { low_date_time: low, high_date_time: high }
}

/// The due time of a timer that is to expire at `deadline`, as the clock reads now.
pub fn due_time_at(clock: &Clock, deadline: TimePoint) -> (due: i64)
    ensures
        exists|now: TimePoint| #[trigger]
            clock.reads(now) && due == -due_intervals(span_between(now@, deadline@)),
{
    let now = clock.now();
    assert(clock.reads(now));
    due_time_from(now, deadline)
}

/// The due time, at the moment `now`, of a timer that is to expire at `deadline`.
pub fn due_time_from(now: TimePoint, deadline: TimePoint) -> (due: i64)
    ensures
        due == -due_intervals(span_between(now@, deadline@)),
{
    relative_due_time(deadline.saturating_duration_since(now))
}

/// [`due_time_at`] in two halves.
pub fn filetime_at(clock: &Clock, deadline: TimePoint) -> (due: FileTime)
    ensures
        exists|now: TimePoint| #[trigger]
            clock.reads(now) && due.signed() == -due_intervals(span_between(now@, deadline@)),
{
    let now = clock.now();
    assert(clock.reads(now));
    filetime_from(now, deadline)
}

/// [`due_time_from`] in two halves.
pub fn filetime_from(now: TimePoint, deadline: TimePoint) -> (due: FileTime)
    ensures
        due.signed() == -due_intervals(span_between(now@, deadline@)),
{
    relative_filetime(deadline.saturating_duration_since(now))
}

/// The state shared by a timer's callback and the task that awaits the timer, as its owner sees it
/// under a lock.
///
/// `W` is what wakes a task.
#[derive(Debug)]
pub struct State<W> {
    /// Set when the timer expires; cleared when that is observed and when the timer is armed or
    /// disarmed.
    fired: bool,
    /// The waker of the task whose poll found the timer not expired.
    waker: Option<W>,
}

/// The contents of a [`State`].
pub struct Shared<W> {
    /// The timer has expired, and no poll has observed it.
    pub fired: bool,
    /// The waker of the waiting task.
    pub waker: Option<W>,
}

impl<W> Shared<W> {
    /// No task is left waiting for an expiration that has happened.
    pub open spec fn valid(self) -> bool {
        self.fired ==> self.waker is None
    }

    /// The contents of a new state.
    pub open spec fn clear() -> Shared<W> {
        Shared { fired: false, waker: None }
    }

    /// The contents after the timer expired.
    pub open spec fn after_fire(self) -> Shared<W> {
        Shared { fired: true, waker: None }
    }

    /// The contents after a poll by the task of `waker`; `same` says that the waker registered
    /// before, if any, wakes the same task.
    pub open spec fn after_poll(self, waker: W, same: bool) -> Shared<W> {
        if self.fired {
            Shared { fired: false, ..self }
        } else if self.waker is Some && same {
            self
        } else {
            Shared { waker: Some(waker), ..self }
        }
    }

    /// The contents after the timer was reset, to be armed or disarmed.
    pub open spec fn after_reset(self) -> Shared<W> {
        Shared::clear()
    }

    /// The contents after all of `polls`, one after the other.
    pub open spec fn after_polls(self, polls: Seq<(W, bool)>) -> Shared<W>
        decreases polls.len(),
    {
        if polls.len() == 0 {
            self
        } else {
            self.after_polls(polls.drop_last()).after_poll(polls.last().0, polls.last().1)
        }
    }
}

impl<W> View for State<W> {
    type V = Shared<W>;

    closed spec fn view(&self) -> Shared<W> {
        Shared { fired: self.fired, waker: self.waker }
    }
}

impl<W> State<W> {
    #[verifier::type_invariant]
    spec fn contents_are_valid(self) -> bool {
        self@.valid()
    }

    /// The state of a timer that is not armed.
    pub fn new() -> (state: State<W>)
        ensures
            state@ == Shared::<W>::clear(),
    {
        State { fired: false, waker: None }
    }

    /// The waker registered by the last poll that found the timer not expired.
    pub fn registered(&self) -> (waker: Option<&W>)
        ensures
            match waker {
                Some(waker) => self@.waker == Some(*waker),
                None => self@.waker is None,
            },
    {
        match &self.waker {
            Some(waker) => Some(waker),
            None => None,
        }
    }

    /// Marks the timer as expired, and hands out the waker that is to be woken.
    pub fn fire(&mut self) -> (waker: Option<W>)
        ensures
            waker == old(self)@.waker,
            final(self)@ == old(self)@.after_fire(),
    {
        let mut waker = None;
        core::mem::swap(&mut waker, &mut self.waker);
        self.fired = true;
        waker
    }

    /// Observes whether the timer has expired, and otherwise leaves `waker` to be woken when it
    /// does. `same` says that the waker registered before, if any, wakes the same task; it is then
    /// kept.
    pub fn poll(&mut self, waker: W, same: bool) -> (expired: bool)
        ensures
            expired == old(self)@.fired,
            final(self)@ == old(self)@.after_poll(waker, same),
    {
        proof {
            use_type_invariant(&*self);
        }
        if self.fired {
            self.fired = false;
            return true;
        }
        match &self.waker {
            Some(_) if same => {},
            _ => {
                self.waker = Some(waker);
            },
        }
        false
    }

    /// Clears what came before, so that the timer can be armed anew.
    pub fn reset(&mut self)
        ensures
            final(self)@ == old(self)@.after_reset(),
    {
        self.fired = false;
        self.waker = None;
    }
}

/// A step of setting up a high-resolution timer.
#[derive(Debug, Clone, Copy, PartialEq, Eq, Structural)]
pub enum HighResStage {
    /// The system is asked whether it has such timers.
    Probe,
    /// The waitable timer is created.
    CreateTimer,
    /// The wait on the timer is created.
    CreateWait,
}

/// What follows a step of setting up a high-resolution timer.
#[derive(Debug, Clone, Copy, PartialEq, Eq, Structural)]
pub enum HighResAction {
    /// Go on with this step.
    Continue(HighResStage),
    /// The timer is ready for use.
    Finish,
    /// Use a threadpool timer; nothing has been created.
    UsePool,
    /// Close the waitable timer, drop its callback's share of the state, and use a threadpool
    /// timer.
    CloseTimerAndUsePool,
}

/// See [`high_res_next`].
pub open spec fn high_res_step(stage: HighResStage, succeeded: bool) -> HighResAction {
    match (stage, succeeded) {
        (HighResStage::Probe, true) => HighResAction::Continue(HighResStage::CreateTimer),
        (HighResStage::CreateTimer, true) => HighResAction::Continue(HighResStage::CreateWait),
        (HighResStage::CreateWait, true) => HighResAction::Finish,
        (HighResStage::CreateWait, false) => HighResAction::CloseTimerAndUsePool,
        (_, false) => HighResAction::UsePool,
    }
}

/// The step that follows `stage`, given whether it succeeded, on the way to a high-resolution
/// timer.
pub fn high_res_next(stage: HighResStage, succeeded: bool) -> (action: HighResAction)
    ensures
        action == high_res_step(stage, succeeded),
{
    match stage {
        HighResStage::Probe => if succeeded {
            HighResAction::Continue(HighResStage::CreateTimer)
        } else {
            HighResAction::UsePool
        },
        HighResStage::CreateTimer => if succeeded {
            HighResAction::Continue(HighResStage::CreateWait)
        } else {
            HighResAction::UsePool
        },
        HighResStage::CreateWait => if succeeded {
            HighResAction::Finish
        } else {
            HighResAction::CloseTimerAndUsePool
        },
    }
}

/// How a setup that has come to `action` ends when the steps still to be taken go as in
/// `outcomes`.
pub open spec fn high_res_end(action: HighResAction, outcomes: Seq<bool>) -> HighResAction
    decreases outcomes.len(),
{
    match action {
        HighResAction::Continue(stage) if outcomes.len() > 0 => high_res_end(
            high_res_step(stage, outcomes[0]),
            outcomes.drop_first(),
        ),
        _ => action,
    }
}

/// A high-resolution timer is used exactly where every step succeeds. Where one does not, the
/// waitable timer is closed if, and only if, it was created.
pub proof fn law_setup_falls_back_and_leaves_nothing_open(supported: bool, timer: bool, wait: bool)
    ensures
        high_res_end(
            HighResAction::Continue(HighResStage::Probe),
            seq![supported, timer, wait],
        ) == if supported && timer && wait {
            HighResAction::Finish
        } else if supported && timer {
            HighResAction::CloseTimerAndUsePool
        } else {
            HighResAction::UsePool
        },
{
    reveal_with_fuel(high_res_end, 4);
    let outcomes = seq![supported, timer, wait];
    assert(outcomes.drop_first()[0] == timer);
    assert(outcomes.drop_first().drop_first()[0] == wait);
}

/// Every step keeps the shared contents valid: no task is left waiting for an expiration that has
/// happened.
pub proof fn law_shared_contents_stay_valid<W>(shared: Shared<W>, waker: W, same: bool)
    requires
        shared.valid(),
    ensures
        Shared::<W>::clear().valid(),
        shared.after_fire().valid(),
        shared.after_poll(waker, same).valid(),
{
}

/// An expiration is never missed: a poll after it observes it, once, and a poll before it leaves a
/// waker that the expiration hands out.
pub proof fn law_expiration_reaches_the_task<W>(
    shared: Shared<W>,
    waker: W,
    same: bool,
    later: W,
    still_same: bool,
)
    requires
        shared.valid(),
    ensures
        shared.after_fire().fired,
        !shared.after_fire().after_poll(waker, same).fired,
        !shared.fired ==> shared.after_poll(waker, same).waker is Some,
        !shared.fired && !same ==> shared.after_poll(waker, same).waker == Some(waker),
        !shared.fired && shared.waker is Some && same ==> shared.after_poll(waker, same).waker
            == shared.waker,
        !shared.fired ==> !shared.after_poll(waker, same).after_poll(later, still_same).fired,
{
}

/// A timer that was never armed, or was disarmed, is pending at every poll, however many there
/// are, until it is fired.
pub proof fn law_timer_is_pending_until_it_fires<W>(shared: Shared<W>, polls: Seq<(W, bool)>)
    requires
        !shared.fired,
    ensures
        !shared.after_polls(polls).fired,
        forall|i: int|
            0 <= i < polls.len() ==> !(#[trigger] shared.after_polls(polls.take(i))).fired,
    decreases polls.len(),
{
    if polls.len() > 0 {
        law_timer_is_pending_until_it_fires(shared, polls.drop_last());
    }
    assert forall|i: int| 0 <= i < polls.len() implies !(#[trigger] shared.after_polls(
        polls.take(i),
    )).fired by {
        law_timer_is_pending_until_it_fires(shared, polls.take(i));
    }
}

/// An expiration is observed once: the first poll after it finds it, and every poll after that one
/// finds the timer pending again.
pub proof fn law_timer_fires_once<W>(
    shared: Shared<W>,
    waker: W,
    same: bool,
    polls: Seq<(W, bool)>,
)
    ensures
        shared.after_fire().fired,
        !shared.after_fire().after_poll(waker, same).after_polls(polls).fired,
        forall|i: int|
            0 <= i < polls.len() ==> !(#[trigger] shared.after_fire().after_poll(
                waker,
                same,
            ).after_polls(polls.take(i))).fired,
{
    law_timer_is_pending_until_it_fires(shared.after_fire().after_poll(waker, same), polls);
}

/// Arming and disarming forget an expiration that was not observed, and the task that waits; doing
/// so twice is the same as doing so once.
pub proof fn law_reset_forgets_what_came_before<W>(shared: Shared<W>)
    ensures
        shared.after_reset() == Shared::<W>::clear(),
        shared.after_fire().after_reset() == shared.after_reset(),
        shared.after_reset().after_reset() == shared.after_reset(),
{
}

/// The flag follows a one-shot timer: it is set as the timer expires, cleared by the poll that
/// observes that, and cleared when the timer is armed or disarmed.
pub proof fn law_state_follows_a_one_shot_timer<W>(
    shared: Shared<W>,
    timer: OneShot,
    waker: W,
    same: bool,
    deadline: int,
    now: int,
)
    requires
        shared.fired == timer.expired,
    ensures
        shared.after_poll(waker, same).fired == timer.observed().expired,
        shared.after_reset().fired == timer.armed(deadline).expired,
        shared.after_reset().fired == timer.disarmed().expired,
        timer.at(now) != timer ==> shared.after_fire().fired == timer.at(now).expired,
        timer.at(now) == timer ==> shared.fired == timer.at(now).expired,
{
}

/// A due time falls short of its span by less than one interval; only a span shorter than an
/// interval is made longer, to one interval, and only one of more than `i64::MAX` intervals is
/// cut off.
pub proof fn law_due_time_keeps_the_span(nanos: nat)
    ensures
        1 <= due_intervals(nanos) <= i64::MAX,
        nanos < 100 ==> due_intervals(nanos) == 1,
        100 <= nanos <= i64::MAX * 100 ==> due_intervals(nanos) * 100 <= nanos < due_intervals(
            nanos,
        ) * 100 + 100,
{
}

} // verus!
