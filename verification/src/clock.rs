//! The monotonic clock that schedules are measured on.

use vstd::prelude::*;

use crate::time::{TimePoint, MAX_DURATION_NANOS, MAX_POINT_NANOS};

verus! {

/// Tokio's point in time, which only carries a reading through: all arithmetic is done on
/// [`TimePoint`].
#[verifier::external_type_specification]
#[verifier::external_body]
pub struct ExTokioInstant(tokio::time::Instant);

/// `tokio::time::Instant::now` reads the clock. Nothing is claimed of the reading.
pub assume_specification[ tokio::time::Instant::now ]() -> tokio::time::Instant;

/// The nanoseconds that `tokio::time::Instant::elapsed` reports between `origin` and now.
///
/// The reading depends on the moment of the call. All that is claimed is that it is the length of
/// a `std::time::Duration`, which spans no more than `u64::MAX` seconds and 999 999 999
/// nanoseconds.
#[verifier::external_body]
fn nanos_elapsed(origin: &tokio::time::Instant) -> (nanos: u128)
    ensures
        nanos <= MAX_DURATION_NANOS,
{
    origin.elapsed().as_nanos()
}

/// A monotonic clock, and the moment from which its timeline is measured.
#[derive(Debug, Clone, Copy)]
pub struct Clock {
    /// The moment that lies at [`TimePoint::origin`].
    pub origin: tokio::time::Instant,
}

impl Clock {
    /// A clock whose timeline starts now: its origin is a reading of tokio's clock.
    pub fn start() -> (clock: Clock)
        ensures
            call_ensures(tokio::time::Instant::now, (), clock.origin),
    {
        Clock { origin: tokio::time::Instant::now() }
    }

    /// Tokio's clock reported `nanos` nanoseconds since the origin.
    pub closed spec fn reports(self, nanos: u128) -> bool {
        call_ensures(nanos_elapsed, (&self.origin,), nanos)
    }

    /// What counts as a report is what tokio's clock gave for the time since the origin.
    proof fn law_reports_come_from_tokio(self, nanos: u128)
        requires
            self.reports(nanos),
        ensures
            call_ensures(nanos_elapsed, (&self.origin,), nanos),
            nanos <= 18_446_744_073_709_551_615_999_999_999,
    {
    }

    /// The clock read `now` when it was asked for the present moment.
    pub open spec fn reads(self, now: TimePoint) -> bool {
        call_ensures(Clock::now, (&self,), now)
    }

    /// The present moment, never before the origin: what tokio's clock reports.
    ///
    /// A report past the last representable point is given as that point.
    pub fn now(&self) -> (now: TimePoint)
        ensures
            exists|nanos: u128| #[trigger]
                self.reports(nanos) && now@ == if nanos <= MAX_POINT_NANOS {
                    nanos as int
                } else {
                    MAX_POINT_NANOS as int
                },
            0 <= now@ <= MAX_POINT_NANOS,
    {
        let nanos: u128 = nanos_elapsed(&self.origin);
        assert(self.reports(nanos));
        TimePoint::saturating_from_nanos(nanos)
    }
}

} // verus!
