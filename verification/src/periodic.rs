//! A ticker whose schedule is kept by one periodic kernel timer.

use vstd::prelude::*;

use crate::sys::fd::{action_after, next_action, FdAction, FdEvent};
use crate::sys::kqueue::{KqueueEvent, Platform};
use crate::sys::periodic_timer::PeriodicTimer;
use crate::sys::timerfd::{read_outcome, TimerfdRead};
use crate::time::Duration;

verus! {

/// Number of times a [`PeriodicInterval`] has expired since the previous successful tick.
///
/// A value greater than 1 means that the consumer fell behind the kernel's schedule and the kernel
/// coalesced the missed expirations.
pub type Expirations = u64;

/// A periodic ticker driven entirely by an OS timer.
///
/// The kernel keeps the schedule; a tick waits for the next expiration, or batch of expirations,
/// and reports how many there were.
#[derive(Debug)]
pub struct PeriodicInterval {
    period: Duration,
}

impl View for PeriodicInterval {
    type V = nat;

    closed spec fn view(&self) -> nat {
        self.period@
    }
}

impl PeriodicInterval {
    #[verifier::type_invariant]
    spec fn period_is_not_empty(self) -> bool {
        self.period@ > 0
    }

    /// The ticker with the given `period`, where setting up its kernel timer went as in `timer`.
    ///
    /// The kernel timer is programmed with
    /// [`periodic_spec`](crate::sys::timerfd::periodic_spec) or
    /// [`periodic_change`](crate::sys::kqueue::Platform::periodic_change) of the period.
    pub fn new<E>(period: Duration, timer: Result<(), E>) -> (iv: Result<PeriodicInterval, E>)
        requires
            period@ > 0,
        ensures
            match timer {
                Ok(_) => iv matches Ok(iv) && iv@ == period@,
                Err(error) => iv == Err::<PeriodicInterval, E>(error),
            },
    {
        match timer {
            Ok(_) => Ok(PeriodicInterval { period }),
            Err(error) => Err(error),
        }
    }

    /// Returns the period of this ticker.
    pub fn period(&self) -> (period: Duration)
        ensures
            period@ == self@,
            period@ > 0,
    {
        proof {
            use_type_invariant(&*self);
        }
        self.period
    }

    /// The step that follows `event` while a tick is awaited. The schedule is the kernel's, so
    /// nothing of the ticker changes.
    pub fn poll_tick<E>(&mut self, event: FdEvent<Expirations, E>) -> (action: FdAction<
        Expirations,
        E,
    >)
        ensures
            *final(self) == *old(self),
            action == action_after(event),
    {
        next_action(event)
    }
}

/// A tick reports the count that was read, and so at least one expiration, as a read that goes
/// through yields no smaller count.
pub proof fn law_tick_reports_at_least_one_expiration<E>(event: FdEvent<Expirations, E>)
    requires
        event matches FdEvent::Completed(count) ==> count >= 1,
    ensures
        action_after(event) matches FdAction::Ready(count) ==> count >= 1,
        action_after(event) is Ready <==> event is Completed,
        event matches FdEvent::Completed(count) ==> action_after(event) == FdAction::<
            Expirations,
            E,
        >::Ready(count),
{
}

/// What a read of `timer` at `now` is to the ticker: the count of the expirations that no read has
/// reported, or nothing.
pub open spec fn event_at<E>(timer: PeriodicTimer, now: int) -> FdEvent<Expirations, E> {
    if timer.pending(now) > 0 {
        FdEvent::Completed(timer.pending(now) as u64)
    } else {
        FdEvent::WouldBlock
    }
}

/// A tick delivers exactly the count of the expirations that are pending, and a read that finds
/// none delivers no tick, through the counter of a `timerfd` and the event of a kqueue alike. The
/// kernel's counts have to hold the number.
pub proof fn law_tick_delivers_what_is_pending<E>(
    timer: PeriodicTimer,
    now: int,
    platform: Platform,
    flags: u32,
)
    requires
        timer.pending(now) <= i64::MAX,
        flags & platform.ev_error == 0,
    ensures
        timer.pending(now) > 0 ==> (action_after(event_at::<E>(timer, now)) matches FdAction::Ready(
            count,
        ) && count == timer.pending(now)),
        timer.pending(now) == 0 ==> action_after(event_at::<E>(timer, now)) is PollAgain,
        read_outcome(8, timer.pending(now) as u64) matches TimerfdRead::Expired(count) && count
            == timer.pending(now),
        platform.event_of(1, flags, timer.pending(now) as i64) matches KqueueEvent::Expired(count)
            && count == timer.pending(now),
{
}

} // verus!
