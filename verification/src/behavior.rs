//! What an interval does when ticks are missed.

use vstd::prelude::*;

use crate::time::{non_negative, representable, Duration, TimePoint};

verus! {

/// Defines the behavior of an [`OsInterval`](crate::interval::OsInterval) when it misses a tick.
///
/// The semantics are those of `tokio::time::MissedTickBehavior`: a tick is missed where it is
/// observed more than five milliseconds late, and one that is not missed leaves the schedule as
/// it is.
#[derive(Debug, Clone, Copy, PartialEq, Eq, Hash, Structural)]
pub enum MissedTickBehavior {
    /// Tick as fast as possible until caught up. This is the default.
    Burst,
    /// After a missed tick, the next tick fires `period` after the moment the missed tick was
    /// observed: the schedule slips.
    Delay,
    /// Skip missed ticks and keep the original schedule: the next deadline is snapped forward to
    /// the next multiple of `period`, the first that lies after the moment the missed tick was
    /// observed.
    Skip,
}

impl Default for MissedTickBehavior {
    fn default() -> (behavior: MissedTickBehavior)
        ensures
            behavior == MissedTickBehavior::Burst,
    {
        MissedTickBehavior::Burst
    }
}

/// How late a tick may be observed, in nanoseconds, and still count as on time.
pub const TOLERANCE_NANOS: i128 = 5_000_000;

/// The number of periods by which [`MissedTickBehavior::Skip`] moves a deadline forward when
/// `late` nanoseconds have passed since it: as many as lead past the delay, and no more than a
/// `u32` can count.
pub open spec fn periods_to_skip(late: nat, period: nat) -> nat {
    let needed = late / (if period == 0 { 1 } else { period }) + 1;
    if needed <= u32::MAX {
        needed
    } else {
        u32::MAX as nat
    }
}

/// The deadline that follows `prev` when its tick was missed and is observed at `now`.
pub open spec fn following_deadline(
    behavior: MissedTickBehavior,
    prev: int,
    now: int,
    period: nat,
) -> int {
    match behavior {
        MissedTickBehavior::Burst => prev + period,
        MissedTickBehavior::Delay => now + period,
        MissedTickBehavior::Skip => prev + period * periods_to_skip(
            non_negative(now - prev),
            period,
        ),
    }
}

/// A tick that was due at `prev` has been missed when it is observed at `now`.
pub open spec fn missed(prev: int, now: int) -> bool {
    now > prev + TOLERANCE_NANOS
}

/// The deadline that follows `prev` when its tick is observed at `now`: one period later where
/// the tick was not missed, and what `behavior` says where it was.
pub open spec fn scheduled_after(
    behavior: MissedTickBehavior,
    prev: int,
    now: int,
    period: nat,
) -> int {
    if missed(prev, now) {
        following_deadline(behavior, prev, now, period)
    } else {
        prev + period
    }
}

/// The number of periods by which a deadline is moved forward under [`MissedTickBehavior::Skip`],
/// given the nanoseconds that have passed since it and the nanoseconds of the period.
///
/// A delay of `u32::MAX` periods or more counts as `u32::MAX` periods; an empty period counts as
/// one nanosecond.
pub fn ticks_to_skip(late: u128, period: u128) -> (n: u32)
    ensures
        n == periods_to_skip(late as nat, period as nat),
{
    let unit: u128 = if period == 0 { 1 } else { period };
    let whole: u128 = late / unit;
    if whole < u32::MAX as u128 {
        whole as u32 + 1
    } else {
        u32::MAX
    }
}

impl MissedTickBehavior {
    /// The deadline that follows `prev` when its tick was missed and is observed at `now`, or
    /// `None` where it lies beyond the last representable point.
    pub fn checked_next_deadline(
        self,
        prev: TimePoint,
        now: TimePoint,
        period: Duration,
    ) -> (next: Option<TimePoint>)
        ensures
            match next {
                Some(next) => {
                    &&& representable(following_deadline(self, prev@, now@, period@))
                    &&& next@ == following_deadline(self, prev@, now@, period@)
                },
                None => !representable(following_deadline(self, prev@, now@, period@)),
            },
    {
        match self {
            MissedTickBehavior::Burst => prev.checked_add(period),
            MissedTickBehavior::Delay => now.checked_add(period),
            MissedTickBehavior::Skip => {
                let period_nanos: u128 = period.as_nanos();
                let since: i128 = now.as_nanos() - prev.as_nanos();
                let late: u128 = if since > 0 { since as u128 } else { 0 };
                let n: u32 = ticks_to_skip(late, period_nanos);
                proof {
                    assert(0 <= period_nanos * n <= 80_000_000_000_000_000_000_000_000_000_000_000_000) by (nonlinear_arith)
                        requires
                            0 <= period_nanos <= 18_446_744_073_709_551_615_999_999_999,
                            0 <= n <= 4_294_967_295,
                    ;
                    assert(period@ * (n as nat) == period_nanos * n) by (nonlinear_arith)
                        requires
                            period@ == period_nanos,
                    ;
                }
                let ahead: u128 = period_nanos * n as u128;
                TimePoint::from_nanos(prev.as_nanos() + ahead as i128)
            },
        }
    }

    /// The deadline that follows `prev` when its tick was missed and is observed at `now`.
    pub fn next_deadline(self, prev: TimePoint, now: TimePoint, period: Duration) -> (next:
        TimePoint)
        requires
            representable(following_deadline(self, prev@, now@, period@)),
        ensures
            next@ == following_deadline(self, prev@, now@, period@),
    {
        self.checked_next_deadline(prev, now, period).unwrap()
    }

    /// The deadline that follows `prev` when its tick, missed or not, is observed at `now`, or
    /// `None` where it lies beyond the last representable point.
    pub fn checked_deadline_after(
        self,
        prev: TimePoint,
        now: TimePoint,
        period: Duration,
    ) -> (next: Option<TimePoint>)
        ensures
            match next {
                Some(next) => {
                    &&& representable(scheduled_after(self, prev@, now@, period@))
                    &&& next@ == scheduled_after(self, prev@, now@, period@)
                },
                None => !representable(scheduled_after(self, prev@, now@, period@)),
            },
    {
        if now.as_nanos() > prev.as_nanos() + TOLERANCE_NANOS {
            self.checked_next_deadline(prev, now, period)
        } else {
            prev.checked_add(period)
        }
    }
}

} // verus!
