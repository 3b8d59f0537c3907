//! The one-shot timer that the backends amount to, and the laws it obeys.

use vstd::prelude::*;

verus! {

/// A one-shot timer that can be armed again and again, on the timeline of some clock.
pub struct OneShot {
    /// The moment the timer is armed for, unless that has come.
    pub due: Option<int>,
    /// The timer has expired, and no poll has observed it.
    pub expired: bool,
}

impl OneShot {
    /// A timer that was never armed.
    pub open spec fn idle() -> OneShot {
        OneShot { due: None, expired: false }
    }

    /// The timer once it was armed for `deadline`.
    pub open spec fn armed(self, deadline: int) -> OneShot {
        OneShot { due: Some(deadline), expired: false }
    }

    /// The timer once it was disarmed.
    pub open spec fn disarmed(self) -> OneShot {
        OneShot::idle()
    }

    /// The timer once the clock has come to `now`.
    pub open spec fn at(self, now: int) -> OneShot {
        match self.due {
            Some(deadline) if deadline <= now => OneShot { due: None, expired: true },
            _ => self,
        }
    }

    /// The timer once a poll has observed its expiration, if there was one.
    pub open spec fn observed(self) -> OneShot {
        OneShot { expired: false, ..self }
    }

    /// A poll at `now` finds the timer expired.
    pub open spec fn ready(self, now: int) -> bool {
        self.at(now).expired
    }

    /// The timer after polls at each of `times`, one after the other.
    pub open spec fn polled(self, times: Seq<int>) -> OneShot
        decreases times.len(),
    {
        if times.len() == 0 {
            self
        } else {
            self.polled(times.drop_last()).at(times.last()).observed()
        }
    }
}

/// A timer that was never armed, or was disarmed, is pending at every one of any number of polls.
pub proof fn law_idle_timer_stays_pending(timer: OneShot, times: Seq<int>)
    requires
        timer == OneShot::idle(),
    ensures
        timer.polled(times) == timer,
        forall|i: int| 0 <= i < times.len() ==> !#[trigger] timer.polled(times.take(i)).ready(times[i]),
    decreases times.len(),
{
    if times.len() > 0 {
        law_idle_timer_stays_pending(timer, times.drop_last());
    }
    assert forall|i: int| 0 <= i < times.len() implies !#[trigger] timer.polled(times.take(i)).ready(
        times[i],
    ) by {
        law_idle_timer_stays_pending(timer, times.take(i));
    }
}

/// A timer is pending, and stays armed, until its deadline has come; the first poll from then on
/// finds it expired.
pub proof fn law_armed_timer_waits_for_its_deadline(
    timer: OneShot,
    deadline: int,
    early: Seq<int>,
    late: int,
)
    requires
        forall|i: int| 0 <= i < early.len() ==> #[trigger] early[i] < deadline,
        deadline <= late,
    ensures
        timer.armed(deadline).polled(early) == timer.armed(deadline),
        forall|i: int|
            0 <= i < early.len() ==> !#[trigger] timer.armed(deadline).polled(early.take(i)).ready(
                early[i],
            ),
        timer.armed(deadline).polled(early).ready(late),
    decreases early.len(),
{
    if early.len() > 0 {
        law_armed_timer_waits_for_its_deadline(timer, deadline, early.drop_last(), late);
        assert(early.last() < deadline);
    }
    assert forall|i: int| 0 <= i < early.len() implies !#[trigger] timer.armed(deadline).polled(
        early.take(i),
    ).ready(early[i]) by {
        let before = early.take(i);
        assert forall|j: int| 0 <= j < before.len() implies #[trigger] before[j] < deadline by {
            assert(before[j] == early[j]);
        }
        law_armed_timer_waits_for_its_deadline(timer, deadline, before, late);
    }
}

/// A poll that finds the timer expired uses the expiration up: the timer is idle, and pending at
/// every later poll.
pub proof fn law_timer_expires_once(timer: OneShot, now: int, times: Seq<int>)
    requires
        timer.ready(now),
        timer.expired ==> timer.due is None,
    ensures
        timer.at(now).observed() == OneShot::idle(),
        timer.at(now).observed().polled(times) == OneShot::idle(),
        forall|i: int|
            0 <= i < times.len() ==> !#[trigger] timer.at(now).observed().polled(
                times.take(i),
            ).ready(times[i]),
{
    law_idle_timer_stays_pending(timer.at(now).observed(), times);
}

/// Only the last arming counts: the deadline before it is forgotten, and so is an expiration that
/// was not observed.
pub proof fn law_arming_forgets_what_came_before(
    timer: OneShot,
    first: int,
    now: int,
    second: int,
)
    ensures
        timer.armed(first).armed(second) == timer.armed(second),
        timer.armed(first).at(now).armed(second) == timer.armed(second),
        timer.armed(second) == OneShot::idle().armed(second),
{
}

/// Disarming drops the deadline and an expiration that was not observed, and disarming twice is
/// the same as disarming once.
pub proof fn law_disarming_twice_is_disarming_once(timer: OneShot, now: int)
    ensures
        timer.at(now).disarmed() == OneShot::idle(),
        timer.disarmed() == OneShot::idle(),
        timer.disarmed().disarmed() == timer.disarmed(),
        timer.disarmed().at(now) == timer.disarmed(),
{
}

} // verus!
