//! Spans of time and points on a clock's timeline, as whole nanoseconds.

use vstd::prelude::*;

verus! {

/// Nanoseconds in one second.
pub const NANOS_PER_SEC: u128 = 1_000_000_000;

/// Nanoseconds in the longest [`Duration`]: `u64::MAX` seconds and 999 999 999 nanoseconds.
pub const MAX_DURATION_NANOS: u128 = 18_446_744_073_709_551_615_999_999_999;

/// Position of the earliest [`TimePoint`]: the longest [`Duration`] before the origin.
pub const MIN_POINT_NANOS: i128 = -18_446_744_073_709_551_615_999_999_999;

/// Position of the latest [`TimePoint`]: `i64::MAX` seconds and 999 999 999 nanoseconds from the
/// origin.
pub const MAX_POINT_NANOS: i128 = 9_223_372_036_854_775_807_999_999_999;

/// The longer of a span of `x` nanoseconds and no time at all.
pub open spec fn non_negative(x: int) -> nat {
    if x >= 0 {
        x as nat
    } else {
        0
    }
}

/// The nanoseconds from `earlier` to `later`, as far as a [`Duration`] can hold them: no time where
/// `earlier` is the later of the two, and the longest where they lie further apart.
pub open spec fn span_between(earlier: int, later: int) -> nat {
    if later - earlier <= MAX_DURATION_NANOS {
        non_negative(later - earlier)
    } else {
        MAX_DURATION_NANOS as nat
    }
}

/// `x`, or `i64::MAX` where `x` is greater.
pub open spec fn clamped(x: nat) -> int {
    if x <= i64::MAX {
        x as int
    } else {
        i64::MAX as int
    }
}

/// A point at `x` nanoseconds from the origin can be held by a [`TimePoint`].
pub open spec fn representable(x: int) -> bool {
    MIN_POINT_NANOS <= x <= MAX_POINT_NANOS
}

/// A span of time with nanosecond resolution, up to `u64::MAX` seconds and 999 999 999
/// nanoseconds.
///
/// Its view is the number of nanoseconds it spans.
#[derive(Debug, Clone, Copy, PartialEq, Eq, PartialOrd, Ord, Hash, Structural)]
pub struct Duration {
    nanos: u128,
}

impl View for Duration {
    type V = nat;

    closed spec fn view(&self) -> nat {
        self.nanos as nat
    }
}

impl Duration {
    #[verifier::type_invariant]
    spec fn in_range(self) -> bool {
        self.nanos <= MAX_DURATION_NANOS
    }

    /// The span of `secs` seconds and `nanos` nanoseconds; whole seconds in `nanos` carry over.
    pub fn new(secs: u64, nanos: u32) -> (d: Duration)
        requires
            secs + nanos as int / 1_000_000_000 <= u64::MAX,
        ensures
            d@ == secs * 1_000_000_000 + nanos,
    {
        Duration { nanos: secs as u128 * NANOS_PER_SEC + nanos as u128 }
    }

    /// The span of `secs` seconds.
    pub fn from_secs(secs: u64) -> (d: Duration)
        ensures
            d@ == secs * 1_000_000_000,
    {
        Duration { nanos: secs as u128 * NANOS_PER_SEC }
    }

    /// The span of `millis` milliseconds.
    pub fn from_millis(millis: u64) -> (d: Duration)
        ensures
            d@ == millis * 1_000_000,
    {
        Duration { nanos: millis as u128 * 1_000_000 }
    }

    /// The span of `micros` microseconds.
    pub fn from_micros(micros: u64) -> (d: Duration)
        ensures
            d@ == micros * 1_000,
    {
        Duration { nanos: micros as u128 * 1_000 }
    }

    /// The span of `nanos` nanoseconds.
    pub fn from_nanos(nanos: u64) -> (d: Duration)
        ensures
            d@ == nanos,
    {
        Duration { nanos: nanos as u128 }
    }

    /// The number of nanoseconds in the whole span.
    pub fn as_nanos(&self) -> (nanos: u128)
        ensures
            nanos == self@,
            nanos <= MAX_DURATION_NANOS,
    {
        proof {
            use_type_invariant(&*self);
        }
        self.nanos
    }

    /// The number of whole seconds in the span.
    pub fn as_secs(&self) -> (secs: u64)
        ensures
            secs == self@ / 1_000_000_000,
    {
        proof {
            use_type_invariant(&*self);
        }
        (self.nanos / NANOS_PER_SEC) as u64
    }

    /// The nanoseconds of the span beyond its last whole second.
    pub fn subsec_nanos(&self) -> (nanos: u32)
        ensures
            nanos == self@ % 1_000_000_000,
            nanos < 1_000_000_000,
    {
        (self.nanos % NANOS_PER_SEC) as u32
    }

    /// Whether the span is empty.
    pub fn is_zero(&self) -> (zero: bool)
        ensures
            zero == (self@ == 0),
    {
        self.nanos == 0
    }
}

/// A point on the timeline of a [`Clock`](crate::clock::Clock).
///
/// Its view is the signed number of nanoseconds from the clock's origin.
#[derive(Debug, Clone, Copy, PartialEq, Eq, PartialOrd, Ord, Hash, Structural)]
pub struct TimePoint {
    nanos: i128,
}

impl View for TimePoint {
    type V = int;

    closed spec fn view(&self) -> int {
        self.nanos as int
    }
}

impl TimePoint {
    #[verifier::type_invariant]
    spec fn in_range(self) -> bool {
        representable(self.nanos as int)
    }

    /// The origin of the timeline.
    pub fn origin() -> (t: TimePoint)
        ensures
            t@ == 0,
    {
        TimePoint { nanos: 0 }
    }

    /// The signed number of nanoseconds from the origin to this point.
    pub fn as_nanos(&self) -> (nanos: i128)
        ensures
            nanos == self@,
            representable(nanos as int),
    {
        proof {
            use_type_invariant(&*self);
        }
        self.nanos
    }

    /// The point at `nanos` nanoseconds from the origin, or `None` where no `TimePoint` can hold it.
    pub fn from_nanos(nanos: i128) -> (t: Option<TimePoint>)
        ensures
            match t {
                Some(t) => representable(nanos as int) && t@ == nanos,
                None => !representable(nanos as int),
            },
    {
        if MIN_POINT_NANOS <= nanos && nanos <= MAX_POINT_NANOS {
            Some(TimePoint { nanos })
        } else {
            None
        }
    }

    /// The point `nanos` nanoseconds after the origin, or the latest point where that lies beyond
    /// it.
    pub fn saturating_from_nanos(nanos: u128) -> (t: TimePoint)
        ensures
            t@ == if nanos <= MAX_POINT_NANOS { nanos as int } else { MAX_POINT_NANOS as int },
    {
        if nanos <= MAX_POINT_NANOS as u128 {
            TimePoint { nanos: nanos as i128 }
        } else {
            TimePoint { nanos: MAX_POINT_NANOS }
        }
    }

    /// The point `d` after this one, or `None` where no `TimePoint` can hold it.
    pub fn checked_add(&self, d: Duration) -> (t: Option<TimePoint>)
        ensures
            match t {
                Some(t) => representable(self@ + d@) && t@ == self@ + d@,
                None => !representable(self@ + d@),
            },
    {
        proof {
            use_type_invariant(&*self);
        }
        let ahead: u128 = d.as_nanos();
        TimePoint::from_nanos(self.nanos + ahead as i128)
    }

    /// The point `d` before this one, or `None` where no `TimePoint` can hold it.
    pub fn checked_sub(&self, d: Duration) -> (t: Option<TimePoint>)
        ensures
            match t {
                Some(t) => representable(self@ - d@) && t@ == self@ - d@,
                None => !representable(self@ - d@),
            },
    {
        proof {
            use_type_invariant(&*self);
        }
        let behind: u128 = d.as_nanos();
        TimePoint::from_nanos(self.nanos - behind as i128)
    }

    /// The time from `earlier` to this point, no time where `earlier` is the later of the two, and
    /// the longest `Duration` where they lie further apart.
    pub fn saturating_duration_since(&self, earlier: TimePoint) -> (d: Duration)
        ensures
            d@ == span_between(earlier@, self@),
    {
        proof {
            use_type_invariant(&*self);
            use_type_invariant(&earlier);
        }
        let span: i128 = self.nanos - earlier.nanos;
        if span <= 0 {
            Duration { nanos: 0 }
        } else if span <= MAX_DURATION_NANOS as i128 {
            Duration { nanos: span as u128 }
        } else {
            Duration { nanos: MAX_DURATION_NANOS }
        }
    }
}

/// A point is determined by its distance from the origin.
pub proof fn law_points_equal_by_position(a: TimePoint, b: TimePoint)
    ensures
        a@ == b@ <==> a == b,
{
}

/// A span is determined by the number of its nanoseconds.
pub proof fn law_durations_equal_by_length(a: Duration, b: Duration)
    ensures
        a@ == b@ <==> a == b,
{
}

} // verus!
