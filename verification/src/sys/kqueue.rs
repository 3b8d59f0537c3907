//! macOS, iOS and the BSDs: values for `EVFILT_TIMER`, and what its events mean.

use vstd::prelude::*;

use crate::clock::Clock;
use crate::sys::fd::{calls_made, law_loop_stops_at_the_first_final_call};
use crate::sys::one_shot::OneShot;
use crate::sys::periodic_timer::{
    law_ticks_count_every_expiration, law_ticks_never_outrun_the_clock, rising, total,
    PeriodicTimer,
};
use crate::time::{clamped, span_between, Duration, TimePoint};

verus! {

/// The identifier of the one timer on a kqueue of its own.
pub const TIMER_IDENT: usize = 1;

/// The unit in which a kqueue takes the time of a timer.
#[derive(Debug, Clone, Copy, PartialEq, Eq, Structural)]
pub enum TimerUnit {
    /// Nanoseconds, selected by a flag of the platform.
    Nanoseconds {
        /// The flag `NOTE_NSECONDS`.
        fflags: u32,
    },
    /// Milliseconds, the default of the platforms without such a flag.
    Milliseconds,
}

/// The numbers that a platform gives to the parts of a timer event.
#[derive(Debug, Clone, Copy, PartialEq, Eq, Structural)]
pub struct Platform {
    /// `EV_ADD`.
    pub ev_add: u32,
    /// `EV_ONESHOT`.
    pub ev_oneshot: u32,
    /// `EV_DELETE`.
    pub ev_delete: u32,
    /// `EV_ERROR`.
    pub ev_error: u32,
    /// Flags that every timer is armed with.
    pub extra_fflags: u32,
    /// The unit of a timer's time.
    pub unit: TimerUnit,
}

/// A change to be made to the timer on a kqueue.
#[derive(Debug, Clone, Copy, PartialEq, Eq, Structural)]
pub struct Change {
    /// The identifier of the event.
    pub ident: usize,
    /// What is to be done.
    pub flags: u32,
    /// Flags for the filter.
    pub fflags: u32,
    /// The time of the timer, in the platform's unit.
    pub data: i64,
}

/// The least whole number of milliseconds that cover `nanos` nanoseconds.
pub open spec fn millis_covering(nanos: nat) -> nat {
    if nanos % 1_000_000 == 0 {
        nanos / 1_000_000
    } else {
        nanos / 1_000_000 + 1
    }
}

/// `value`, or `i64::MAX` where `value` is greater.
pub fn clamp_i64(value: u128) -> (r: i64)
    ensures
        r == clamped(value as nat),
{
    if value <= i64::MAX as u128 {
        value as i64
    } else {
        i64::MAX
    }
}

/// The number of units that a timer is armed with for a span of `nanos` nanoseconds: at least one,
/// and as many as cover the span.
pub open spec fn timer_units(nanos: nat, unit: TimerUnit) -> nat {
    let units = match unit {
        TimerUnit::Nanoseconds { .. } => nanos,
        TimerUnit::Milliseconds => millis_covering(nanos),
    };
    if units == 0 {
        1
    } else {
        units
    }
}

/// The flags that select `unit`.
pub open spec fn unit_flags(unit: TimerUnit) -> u32 {
    match unit {
        TimerUnit::Nanoseconds { fflags } => fflags,
        TimerUnit::Milliseconds => 0,
    }
}

/// The nanoseconds in one `unit`.
pub open spec fn unit_nanos(unit: TimerUnit) -> nat {
    match unit {
        TimerUnit::Nanoseconds { .. } => 1,
        TimerUnit::Milliseconds => 1_000_000,
    }
}

/// The time and the flags that arm a timer for `d`.
///
/// Milliseconds are rounded up, so that the timer never fires before `d` has passed, and an empty
/// span counts as one unit.
pub fn duration_to_timer(d: Duration, unit: TimerUnit) -> (timer: (i64, u32))
    ensures
        timer.0 == clamped(timer_units(d@, unit)),
        timer.1 == unit_flags(unit),
{
    let nanos: u128 = d.as_nanos();
    match unit {
        TimerUnit::Nanoseconds { fflags } => {
            let units: u128 = if nanos == 0 { 1 } else { nanos };
            (clamp_i64(units), fflags)
        },
        TimerUnit::Milliseconds => {
            let whole: u128 = nanos / 1_000_000;
            let millis: u128 = if nanos % 1_000_000 == 0 { whole } else { whole + 1 };
            let units: u128 = if millis == 0 { 1 } else { millis };
            (clamp_i64(units), 0)
        },
    }
}

impl Platform {
    /// The change that arms the timer for a span of `nanos` nanoseconds, with `flags`.
    pub open spec fn armed(self, nanos: nat, flags: u32) -> Change {
        Change {
            ident: TIMER_IDENT,
            flags,
            fflags: unit_flags(self.unit) | self.extra_fflags,
            data: clamped(timer_units(nanos, self.unit)) as i64,
        }
    }

    /// The change that arms a one-shot timer for `deadline`, as the clock reads now.
    pub fn one_shot_change(&self, clock: &Clock, deadline: TimePoint) -> (change: Change)
        ensures
            exists|now: TimePoint| #[trigger]
                clock.reads(now) && change == self.armed(
                    span_between(now@, deadline@),
                    self.ev_add | self.ev_oneshot,
                ),
    {
        let now = clock.now();
        assert(clock.reads(now));
        self.one_shot_change_from(now, deadline)
    }

    /// The change that arms a one-shot timer for `deadline` at the moment `now`. A deadline that
    /// has passed leaves one unit.
    pub fn one_shot_change_from(&self, now: TimePoint, deadline: TimePoint) -> (change: Change)
        ensures
            change == self.armed(
                span_between(now@, deadline@),
                self.ev_add | self.ev_oneshot,
            ),
    {
        let delta = deadline.saturating_duration_since(now);
        let (data, fflags) = duration_to_timer(delta, self.unit);
        Change {
            ident: TIMER_IDENT,
            flags: self.ev_add | self.ev_oneshot,
            fflags: fflags | self.extra_fflags,
            data,
        }
    }

    /// The change that arms a timer which the kernel fires every `period`.
    pub fn periodic_change(&self, period: Duration) -> (change: Change)
        ensures
            change == self.armed(period@, self.ev_add),
    {
        let (data, fflags) = duration_to_timer(period, self.unit);
        Change {
            ident: TIMER_IDENT,
            flags: self.ev_add,
            fflags: fflags | self.extra_fflags,
            data,
        }
    }

    /// The change that removes the timer.
    pub fn delete_change(&self) -> (change: Change)
        ensures
            change.ident == TIMER_IDENT,
            change.flags == self.ev_delete,
            change.fflags == 0,
            change.data == 0,
    {
        Change {
            ident: TIMER_IDENT,
            flags: self.ev_delete,
            fflags: 0,
            data: 0,
        }
    }

    /// See [`Platform::periodic_event`].
    pub open spec fn event_of(self, rc: int, flags: u32, data: i64) -> KqueueEvent {
        if rc < 0 {
            KqueueEvent::CallFailed
        } else if rc == 0 {
            KqueueEvent::Nothing
        } else if flags & self.ev_error != 0 {
            KqueueEvent::TimerFailed(data as i32)
        } else {
            KqueueEvent::Expired(data as u64)
        }
    }

    /// What a call that takes one event off the kqueue of a periodic timer came to, given what it
    /// returned and the flags and data of the event.
    pub fn periodic_event(&self, rc: i32, flags: u32, data: i64) -> (event: KqueueEvent)
        ensures
            event == self.event_of(rc as int, flags, data),
    {
        if rc < 0 {
            KqueueEvent::CallFailed
        } else if rc == 0 {
            KqueueEvent::Nothing
        } else if flags & self.ev_error != 0 {
            KqueueEvent::TimerFailed(data as i32)
        } else {
            KqueueEvent::Expired(data as u64)
        }
    }
}

/// What a call that takes an event off the kqueue of a periodic timer came to.
#[derive(Debug, Clone, Copy, PartialEq, Eq, Structural)]
pub enum KqueueEvent {
    /// The call failed.
    CallFailed,
    /// There was no event.
    Nothing,
    /// The kernel reports that the timer failed, with this error number.
    TimerFailed(i32),
    /// The timer has expired this many times since the event before.
    Expired(u64),
}

/// What a call that takes events off the kqueue of a one-shot timer came to.
#[derive(Debug, Clone, Copy, PartialEq, Eq, Structural)]
pub enum OneShotEvent {
    /// The call failed.
    CallFailed,
    /// There was no event.
    Nothing,
    /// The timer has expired.
    Expired,
}

/// See [`one_shot_event`].
pub open spec fn one_shot_outcome(rc: int) -> OneShotEvent {
    if rc < 0 {
        OneShotEvent::CallFailed
    } else if rc == 0 {
        OneShotEvent::Nothing
    } else {
        OneShotEvent::Expired
    }
}

/// What a call that takes events off the kqueue of a one-shot timer came to, given what it
/// returned.
pub fn one_shot_event(rc: i32) -> (event: OneShotEvent)
    ensures
        event == one_shot_outcome(rc as int),
{
    if rc < 0 {
        OneShotEvent::CallFailed
    } else if rc == 0 {
        OneShotEvent::Nothing
    } else {
        OneShotEvent::Expired
    }
}

/// See [`drain_again`].
pub open spec fn drains_again(rc: int, interrupted: bool, capacity: nat) -> bool {
    if rc < 0 {
        interrupted
    } else {
        rc >= capacity
    }
}

/// Whether a call that takes up to `capacity` events off a kqueue, to empty it, is to be repeated,
/// given what it returned and whether it failed because of a signal.
///
/// It is repeated where a signal cut it short, and where the events filled the buffer.
pub fn drain_again(rc: i32, interrupted: bool, capacity: usize) -> (again: bool)
    ensures
        again == drains_again(rc as int, interrupted, capacity as nat),
{
    if rc < 0 {
        interrupted
    } else {
        rc as usize >= capacity
    }
}

/// A timer never fires before its span has passed, and in milliseconds less than one millisecond
/// after, but for a span shorter than the unit, which takes one unit, and one of more than
/// `i64::MAX` units, which is cut off.
pub proof fn law_timer_never_fires_early(nanos: nat, fflags: u32)
    ensures
        nanos <= i64::MAX ==> clamped(timer_units(nanos, TimerUnit::Nanoseconds { fflags }))
            >= nanos,
        0 < nanos <= i64::MAX ==> clamped(timer_units(nanos, TimerUnit::Nanoseconds { fflags }))
            == nanos,
        nanos <= i64::MAX * 1_000_000 ==> clamped(timer_units(nanos, TimerUnit::Milliseconds))
            * 1_000_000 >= nanos,
        0 < nanos <= i64::MAX * 1_000_000 ==> clamped(timer_units(nanos, TimerUnit::Milliseconds))
            * 1_000_000 < nanos + 1_000_000,
{
}

/// A timer is armed with a positive time, whatever the span.
pub proof fn law_timer_time_is_positive(nanos: nat, unit: TimerUnit)
    ensures
        1 <= clamped(timer_units(nanos, unit)) <= i64::MAX,
{
}

/// The count of a periodic event is the number that the kernel gives, which is at least one.
pub proof fn law_periodic_event_counts_every_expiration(
    platform: Platform,
    rc: int,
    flags: u32,
    data: i64,
)
    requires
        data >= 1,
    ensures
        platform.event_of(rc, flags, data) matches KqueueEvent::Expired(count) ==> count == data
            && count >= 1,
        platform.event_of(rc, flags, data) is Expired <==> rc > 0 && flags & platform.ev_error == 0,
{
}

/// A one-shot timer as a kqueue keeps it, on the timeline of the interval's clock.
pub struct KernelTimer {
    /// The moment of the expiration, unless that has come.
    pub due: Option<int>,
    /// The event of an expiration waits on the queue.
    pub queued: bool,
}

impl KernelTimer {
    /// The timer after a change with `EV_ADD` and `EV_ONESHOT`, made at `now` for a span of `span`
    /// nanoseconds: there is one timer with the identifier, and its time is replaced.
    pub open spec fn added(self, now: int, span: nat) -> KernelTimer {
        KernelTimer { due: Some(now + span), ..self }
    }

    /// The timer after a change with `EV_DELETE`.
    pub open spec fn deleted(self) -> KernelTimer {
        KernelTimer { due: None, ..self }
    }

    /// The timer once the clock has come to `now`. A one-shot timer is removed as it expires.
    pub open spec fn at(self, now: int) -> KernelTimer {
        match self.due {
            Some(due) if due <= now => KernelTimer { due: None, queued: true },
            _ => self,
        }
    }

    /// The number of events that a call takes off the queue.
    pub open spec fn events(self) -> int {
        if self.queued {
            1
        } else {
            0
        }
    }

    /// The timer after a call that takes events off the queue.
    pub open spec fn taken(self) -> KernelTimer {
        KernelTimer { queued: false, ..self }
    }

    /// The one-shot timer that this amounts to.
    pub open spec fn as_one_shot(self) -> OneShot {
        OneShot { due: self.due, expired: self.queued }
    }
}

/// A timer on a kqueue of its own is a one-shot timer: adding it while no event is queued arms it,
/// deleting it and emptying the queue disarms it, and a call that takes its event off the queue
/// observes the expiration.
pub proof fn law_kqueue_timer_is_a_one_shot_timer(timer: KernelTimer, now: int, span: nat)
    ensures
        !timer.queued ==> timer.added(now, span).as_one_shot() == timer.as_one_shot().armed(
            now + span,
        ),
        timer.deleted().taken().as_one_shot() == timer.as_one_shot().disarmed(),
        timer.at(now).as_one_shot() == timer.as_one_shot().at(now),
        timer.taken().as_one_shot() == timer.as_one_shot().observed(),
        one_shot_outcome(timer.events()) is Expired <==> timer.as_one_shot().expired,
        one_shot_outcome(timer.events()) is Nothing <==> !timer.as_one_shot().expired,
{
}

/// The events that are left on a queue of `queued` once it was drained, `capacity` at a time, and
/// nothing was added.
pub open spec fn left_after_drain(queued: nat, capacity: nat) -> nat
    decreases queued,
{
    let taken = if queued <= capacity {
        queued
    } else {
        capacity
    };
    if drains_again(taken as int, false, capacity) && 0 < taken {
        left_after_drain((queued - taken) as nat, capacity)
    } else {
        (queued - taken) as nat
    }
}

/// Draining leaves nothing on the queue, however many events it held.
pub proof fn law_drain_empties_the_queue(queued: nat, capacity: nat)
    requires
        capacity > 0,
    ensures
        left_after_drain(queued, capacity) == 0,
    decreases queued,
{
    if queued >= capacity {
        law_drain_empties_the_queue((queued - capacity) as nat, capacity);
    }
}

/// Draining repeats its call exactly as often as a signal cuts it short or the events fill the
/// buffer: `k` such calls are followed by one that is neither, and by no other.
pub proof fn law_drain_stops_at_a_call_that_is_not_full(
    outcomes: Seq<(int, bool)>,
    capacity: nat,
    k: nat,
)
    requires
        k < outcomes.len(),
        forall|i: int|
            0 <= i < k ==> (#[trigger] outcomes[i].0 < 0 && outcomes[i].1) || (0 <= outcomes[i].0
                && capacity <= outcomes[i].0),
        outcomes[k as int].0 < 0 ==> !outcomes[k as int].1,
        outcomes[k as int].0 >= 0 ==> outcomes[k as int].0 < capacity,
    ensures
        calls_made(outcomes.map_values(|o: (int, bool)| drains_again(o.0, o.1, capacity))) == k + 1,
{
    let again = outcomes.map_values(|o: (int, bool)| drains_again(o.0, o.1, capacity));
    assert forall|i: int| 0 <= i < k implies #[trigger] again[i] by {
        assert((outcomes[i].0 < 0 && outcomes[i].1) || (0 <= outcomes[i].0 && capacity
            <= outcomes[i].0));
    }
    law_loop_stops_at_the_first_final_call(again, k);
}

/// The ticks of a periodic timer on a kqueue never outrun the clock: the counts taken by the last
/// of `times`, times the period, are at most the time since `before`, a moment no later than the
/// arming. The period must not exceed `i64::MAX` of the platform's units.
pub proof fn law_kqueue_ticks_never_outrun_the_clock(
    platform: Platform,
    before: int,
    started: int,
    period: nat,
    times: Seq<int>,
)
    requires
        0 < period <= i64::MAX * unit_nanos(platform.unit),
        before <= started,
        rising(times),
        times.len() > 0,
        before <= times.last(),
    ensures
        ({
            let every = platform.armed(period, platform.ev_add).data * unit_nanos(platform.unit);
            let ticks = PeriodicTimer::armed(started, every as nat).ticks(times);
            &&& forall|i: int| 0 <= i < ticks.len() ==> #[trigger] ticks[i] >= 1
            &&& total(ticks) * period <= times.last() - before
            &&& ticks.len() * period <= times.last() - before
        }),
{
    let units = clamped(timer_units(period, platform.unit));
    let every = platform.armed(period, platform.ev_add).data * unit_nanos(platform.unit);
    law_timer_never_fires_early(period, unit_flags(platform.unit));
    law_timer_time_is_positive(period, platform.unit);
    match platform.unit {
        TimerUnit::Nanoseconds { .. } => {
            assert(every == units);
        },
        TimerUnit::Milliseconds => {
            assert(every == units * 1_000_000);
        },
    }
    law_ticks_count_every_expiration(started, every as nat, times);
    law_ticks_never_outrun_the_clock(before, started, every as nat, period, times);
}

} // verus!
