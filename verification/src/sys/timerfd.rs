//! Linux and Android: values for `timerfd_settime`, and what its reads mean.

use vstd::arithmetic::div_mod::lemma_fundamental_div_mod;
use vstd::prelude::*;

use crate::sys::fd::{calls_made, law_loop_stops_at_the_first_final_call};
use crate::sys::one_shot::OneShot;
use crate::sys::periodic_timer::{
    law_ticks_count_every_expiration, law_ticks_never_outrun_the_clock, rising, total,
    PeriodicTimer,
};
use crate::time::{span_between, Duration, TimePoint};

verus! {

/// A time in seconds and nanoseconds, as `timespec` has it on systems with a 64-bit `time_t`.
#[derive(Debug, Clone, Copy, PartialEq, Eq, Structural)]
pub struct Timespec {
    /// Whole seconds.
    pub tv_sec: i64,
    /// Nanoseconds, less than one second in a normal value.
    pub tv_nsec: i64,
}

/// The programming of a timer: its first expiration, and the time between later ones.
#[derive(Debug, Clone, Copy, PartialEq, Eq, Structural)]
pub struct Itimerspec {
    /// The time between expirations after the first; zero for a one-shot timer.
    pub it_interval: Timespec,
    /// The first expiration; zero disarms the timer.
    pub it_value: Timespec,
}

/// No time at all.
pub open spec fn zero_time() -> Timespec {
    Timespec { tv_sec: 0, tv_nsec: 0 }
}

/// `x`, or the greatest number of seconds a [`Timespec`] holds where `x` is greater.
pub open spec fn saturated(x: int) -> int {
    if x <= i64::MAX {
        x
    } else {
        i64::MAX as int
    }
}

impl Timespec {
    /// The nanoseconds are less than a second.
    pub open spec fn normal(self) -> bool {
        0 <= self.tv_nsec < 1_000_000_000
    }

    /// The time in nanoseconds.
    pub open spec fn total(self) -> int {
        self.tv_sec * 1_000_000_000 + self.tv_nsec
    }
}

/// The nanoseconds of `ts`, together with those of `d` beyond its last whole second, can be added
/// in an `i64`.
pub open spec fn nanos_can_be_added(ts: Timespec, d: nat) -> bool {
    ts.tv_nsec + d % 1_000_000_000 <= i64::MAX
}

/// The time `d` nanoseconds after `ts`. The seconds stop at the greatest that can be held.
pub open spec fn sum(ts: Timespec, d: nat) -> Timespec {
    let secs = saturated(ts.tv_sec + saturated(d as int / 1_000_000_000));
    let nanos = ts.tv_nsec + d as int % 1_000_000_000;
    if nanos >= 1_000_000_000 {
        Timespec { tv_sec: saturated(secs + 1) as i64, tv_nsec: (nanos - 1_000_000_000) as i64 }
    } else {
        Timespec { tv_sec: secs as i64, tv_nsec: nanos as i64 }
    }
}

/// `secs`, or `i64::MAX` where that is less.
fn saturate_secs(secs: u64) -> (r: i64)
    ensures
        r == saturated(secs as int),
{
    if secs <= i64::MAX as u64 {
        secs as i64
    } else {
        i64::MAX
    }
}

/// `a + b`, or `i64::MAX` where that is less.
fn saturating_sum(a: i64, b: i64) -> (r: i64)
    requires
        b >= 0,
    ensures
        r == saturated(a + b),
{
    if a > i64::MAX - b {
        i64::MAX
    } else {
        a + b
    }
}

/// The time `d` after `ts`. The seconds stop at the greatest that can be held.
pub fn add_duration(ts: Timespec, d: Duration) -> (t: Timespec)
    requires
        nanos_can_be_added(ts, d@),
    ensures
        t == sum(ts, d@),
{
    let secs: i64 = saturate_secs(d.as_secs());
    let mut tv_sec: i64 = saturating_sum(ts.tv_sec, secs);
    let mut tv_nsec: i64 = ts.tv_nsec + d.subsec_nanos() as i64;
    if tv_nsec >= 1_000_000_000 {
        tv_nsec = tv_nsec - 1_000_000_000;
        tv_sec = saturating_sum(tv_sec, 1);
    }
    Timespec { tv_sec, tv_nsec }
}

/// `d` as a [`Timespec`]. The seconds stop at the greatest that can be held.
pub fn duration_to_timespec(d: Duration) -> (t: Timespec)
    ensures
        t.tv_sec == saturated(d@ as int / 1_000_000_000),
        t.tv_nsec == d@ % 1_000_000_000,
        t.normal(),
{
    Timespec { tv_sec: saturate_secs(d.as_secs()), tv_nsec: d.subsec_nanos() as i64 }
}

/// The programming of a timer that first expires after `period` nanoseconds, and then every
/// `period`. The seconds stop at the greatest that can be held.
pub open spec fn periodic_programming(period: nat) -> Itimerspec {
    let ts = Timespec {
        tv_sec: saturated(period as int / 1_000_000_000) as i64,
        tv_nsec: (period % 1_000_000_000) as i64,
    };
    Itimerspec { it_interval: ts, it_value: ts }
}

/// The programming of a timer that first expires after `period`, and then every `period`.
pub fn periodic_spec(period: Duration) -> (spec: Itimerspec)
    ensures
        spec == periodic_programming(period@),
{
    let ts = duration_to_timespec(period);
    Itimerspec { it_interval: ts, it_value: ts }
}

/// The programming that disarms a timer.
pub fn disarmed_spec() -> (spec: Itimerspec)
    ensures
        spec.it_interval == zero_time(),
        spec.it_value == zero_time(),
{
    let zero = Timespec { tv_sec: 0, tv_nsec: 0 };
    Itimerspec { it_interval: zero, it_value: zero }
}

/// A moment on the interval's timeline and the same moment on the kernel's monotonic clock.
///
/// Both clocks run at the same rate, so one pair of readings is enough to place every later
/// deadline on the kernel's clock.
#[derive(Debug, Clone, Copy, PartialEq, Eq, Structural)]
pub struct MonotonicAnchor {
    /// The moment on the interval's timeline.
    pub epoch: TimePoint,
    /// The same moment on the kernel's clock.
    pub monotonic: Timespec,
}

impl MonotonicAnchor {
    /// `deadline` on the kernel's clock. A deadline before the epoch is placed at the epoch, which
    /// has passed.
    pub open spec fn placed(self, deadline: int) -> Timespec {
        sum(self.monotonic, span_between(self.epoch@, deadline))
    }

    /// The programming of a one-shot timer that expires at `deadline` on the kernel's clock. A
    /// deadline before the epoch is placed at the epoch, which has passed.
    pub fn one_shot_spec(&self, deadline: TimePoint) -> (spec: Itimerspec)
        requires
            nanos_can_be_added(self.monotonic, span_between(self.epoch@, deadline@)),
        ensures
            spec.it_interval == zero_time(),
            spec.it_value == self.placed(deadline@),
    {
        let delta = deadline.saturating_duration_since(self.epoch);
        let it_value = add_duration(self.monotonic, delta);
        Itimerspec { it_interval: Timespec { tv_sec: 0, tv_nsec: 0 }, it_value }
    }
}

/// What a read of the 8 bytes of a timer's expiration counter came to.
#[derive(Debug, Clone, Copy, PartialEq, Eq, Structural)]
pub enum TimerfdRead {
    /// The timer has expired this many times since it was last read or armed.
    Expired(u64),
    /// The call failed.
    CallFailed,
    /// Fewer bytes came than a counter has, which counts as nothing to read.
    Nothing,
}

/// The number whose bytes, the least significant first, are `bytes`.
pub open spec fn little_endian(bytes: Seq<u8>) -> nat
    decreases bytes.len(),
{
    if bytes.len() == 0 {
        0
    } else {
        bytes[0] as nat + 256 * little_endian(bytes.drop_first())
    }
}

/// The number whose bytes, the most significant first, are `bytes`.
pub open spec fn big_endian(bytes: Seq<u8>) -> nat {
    little_endian(bytes.reverse())
}

/// The number that `u64::from_ne_bytes` reads from `bytes` in the order of the machine it runs on:
/// the least significant byte comes first, or the most significant one does. Which of the two it
/// is depends on the machine and is left open.
#[verifier::external_body]
fn native_u64(bytes: [u8; 8]) -> (n: u64)
    ensures
        n == little_endian(bytes@) || n == big_endian(bytes@),
{
    u64::from_ne_bytes(bytes)
}

/// `u64::from_ne_bytes` read `count` from `bytes`, on the machine it ran on.
pub closed spec fn counter_reads(bytes: [u8; 8], count: u64) -> bool {
    call_ensures(native_u64, (bytes,), count)
}

/// What counts as the counter of `bytes` is what was read from exactly these bytes, in one order or
/// the other.
proof fn law_counter_comes_from_its_bytes(bytes: [u8; 8], count: u64)
    requires
        counter_reads(bytes, count),
    ensures
        call_ensures(native_u64, (bytes,), count),
        count == little_endian(bytes@) || count == big_endian(bytes@),
{
}

/// What a read of a timer's expiration counter came to, given what the call returned and the
/// bytes it filled in.
pub fn timerfd_read(rc: isize, bytes: [u8; 8]) -> (read: TimerfdRead)
    ensures
        rc == 8 ==> (read matches TimerfdRead::Expired(count) && (count == little_endian(bytes@)
            || count == big_endian(bytes@)) && ((exists|i: int| 0 <= i < 8 && bytes@[i] != 0)
            ==> count >= 1)),
        exists|count: u64|
            #![trigger counter_reads(bytes, count)]
            counter_reads(bytes, count) && read == read_outcome(rc as int, count),
        rc < 0 ==> read is CallFailed,
        0 <= rc && rc != 8 ==> read is Nothing,
{
    let count: u64 = native_u64(bytes);
    assert(counter_reads(bytes, count));
    proof {
        if exists|i: int| 0 <= i < 8 && bytes@[i] != 0 {
            let i = choose|i: int| 0 <= i < 8 && bytes@[i] != 0;
            law_counter_is_positive(bytes@, i);
        }
    }
    timerfd_read_of(rc, count)
}

/// See [`timerfd_read_of`].
pub open spec fn read_outcome(rc: int, count: u64) -> TimerfdRead {
    if rc == 8 {
        TimerfdRead::Expired(count)
    } else if rc < 0 {
        TimerfdRead::CallFailed
    } else {
        TimerfdRead::Nothing
    }
}

/// What a read of a timer's expiration counter came to, given what the call returned and the
/// counter that it filled in.
pub fn timerfd_read_of(rc: isize, count: u64) -> (read: TimerfdRead)
    ensures
        read == read_outcome(rc as int, count),
{
    if rc == 8 {
        TimerfdRead::Expired(count)
    } else if rc < 0 {
        TimerfdRead::CallFailed
    } else {
        TimerfdRead::Nothing
    }
}

/// See [`drain_again`].
pub open spec fn drains_again(rc: int, interrupted: bool) -> bool {
    rc < 0 && interrupted
}

/// Whether a read that empties the expiration counter is to be repeated, given what it returned
/// and whether it failed because of a signal. One read resets the counter, so only a signal calls
/// for another.
pub fn drain_again(rc: isize, interrupted: bool) -> (again: bool)
    ensures
        again == drains_again(rc as int, interrupted),
{
    rc < 0 && interrupted
}

/// Adding no time changes nothing.
pub proof fn law_adding_nothing_changes_nothing(ts: Timespec)
    requires
        ts.tv_nsec < 1_000_000_000,
    ensures
        sum(ts, 0) == ts,
{
}

/// A sum is normal, and exact unless its seconds had to be cut off.
pub proof fn law_sums_are_normal_and_exact(ts: Timespec, d: nat)
    requires
        ts.normal(),
    ensures
        sum(ts, d).normal(),
        ts.tv_sec + d as int / 1_000_000_000 < i64::MAX && d as int / 1_000_000_000 <= i64::MAX
            ==> sum(ts, d).total() == ts.total() + d,
{
    lemma_fundamental_div_mod(d as int, 1_000_000_000);
}

/// Adding more time never gives an earlier one, up to the last second that can be held; from
/// there on the seconds stay where they are.
pub proof fn law_sums_are_monotone(ts: Timespec, d: nat, longer: nat)
    requires
        ts.normal(),
        0 <= ts.tv_sec,
        d <= longer,
    ensures
        sum(ts, d).tv_sec <= sum(ts, longer).tv_sec,
        sum(ts, longer).tv_sec < i64::MAX ==> sum(ts, d).total() <= sum(ts, longer).total(),
{
    lemma_fundamental_div_mod(d as int, 1_000_000_000);
    lemma_fundamental_div_mod(longer as int, 1_000_000_000);
}

/// The kernel's timer expires exactly as long after the anchor as the deadline lies after it, and
/// at the anchor for a deadline before it, where the seconds are not cut off.
pub proof fn law_timer_expires_at_the_deadline(anchor: MonotonicAnchor, deadline: int)
    requires
        anchor.monotonic.normal(),
        span_between(anchor.epoch@, deadline) as int / 1_000_000_000 <= i64::MAX,
        anchor.monotonic.tv_sec + span_between(anchor.epoch@, deadline) as int / 1_000_000_000
            < i64::MAX,
    ensures
        anchor.epoch@ <= deadline ==> anchor.placed(deadline).total() - anchor.monotonic.total()
            == deadline - anchor.epoch@,
        deadline <= anchor.epoch@ ==> anchor.placed(deadline) == anchor.monotonic,
{
    law_sums_are_normal_and_exact(anchor.monotonic, span_between(anchor.epoch@, deadline));
}

/// A periodic timer runs with the period it is programmed with, up to `i64::MAX` seconds, and is
/// never disarmed by it.
pub proof fn law_periodic_timer_runs_with_the_period(period: nat)
    ensures
        period as int / 1_000_000_000 <= i64::MAX ==> periodic_programming(
            period,
        ).it_interval.total() == period,
        periodic_programming(period).it_value == periodic_programming(period).it_interval,
        period > 0 ==> periodic_programming(period).it_value != zero_time(),
{
    lemma_fundamental_div_mod(period as int, 1_000_000_000);
}

/// The ticks of a periodic `timerfd` never outrun the clock: the counts read by the last of
/// `times`, times the period, are at most the time since `before`, a moment no later than the
/// programming. The period must not exceed `i64::MAX` seconds.
pub proof fn law_timerfd_ticks_never_outrun_the_clock(
    before: int,
    started: int,
    period: nat,
    times: Seq<int>,
)
    requires
        period > 0,
        period as int / 1_000_000_000 <= i64::MAX,
        before <= started,
        rising(times),
        times.len() > 0,
        before <= times.last(),
    ensures
        ({
            let every = periodic_programming(period).it_interval.total();
            let ticks = PeriodicTimer::armed(started, every as nat).ticks(times);
            &&& forall|i: int| 0 <= i < ticks.len() ==> #[trigger] ticks[i] >= 1
            &&& total(ticks) * period <= times.last() - before
            &&& ticks.len() * period <= times.last() - before
        }),
{
    law_periodic_timer_runs_with_the_period(period);
    law_ticks_count_every_expiration(started, period, times);
    law_ticks_never_outrun_the_clock(before, started, period, period, times);
}

/// Draining reads once more than it is interrupted: `k` reads that a signal cuts short are
/// followed by one that is not, and by no other.
pub proof fn law_drain_reads_until_not_interrupted(outcomes: Seq<(int, bool)>, k: nat)
    requires
        k < outcomes.len(),
        forall|i: int| 0 <= i < k ==> #[trigger] outcomes[i].0 < 0 && outcomes[i].1,
        outcomes[k as int].0 >= 0 || !outcomes[k as int].1,
    ensures
        calls_made(outcomes.map_values(|o: (int, bool)| drains_again(o.0, o.1))) == k + 1,
{
    let again = outcomes.map_values(|o: (int, bool)| drains_again(o.0, o.1));
    assert forall|i: int| 0 <= i < k implies #[trigger] again[i] by {
        assert(outcomes[i].0 < 0 && outcomes[i].1);
    }
    law_loop_stops_at_the_first_final_call(again, k);
}

/// A counter with a byte that is not zero counts at least one expiration, in either byte order.
pub proof fn law_counter_is_positive(bytes: Seq<u8>, i: int)
    requires
        0 <= i < bytes.len(),
        bytes[i] != 0,
    ensures
        little_endian(bytes) >= 1,
        big_endian(bytes) >= 1,
{
    lemma_little_endian_is_positive(bytes, i);
    assert(bytes.reverse()[bytes.len() - 1 - i] == bytes[i]);
    lemma_little_endian_is_positive(bytes.reverse(), bytes.len() - 1 - i);
}

proof fn lemma_little_endian_is_positive(bytes: Seq<u8>, i: int)
    requires
        0 <= i < bytes.len(),
        bytes[i] != 0,
    ensures
        little_endian(bytes) >= 1,
    decreases bytes.len(),
{
    if i > 0 {
        assert(bytes.drop_first()[i - 1] == bytes[i]);
        lemma_little_endian_is_positive(bytes.drop_first(), i - 1);
    }
}

/// A one-shot `timerfd` as the kernel keeps it, on the kernel's monotonic clock.
pub struct KernelTimer {
    /// The moment of the expiration, unless that has come.
    pub due: Option<int>,
    /// The expirations that have not been read.
    pub unread: u64,
}

impl KernelTimer {
    /// The timer after `timerfd_settime` with `spec`, an absolute time: the programming replaces
    /// the one before, a zero time disarms, and the count starts again from nothing.
    pub open spec fn programmed(self, spec: Itimerspec) -> KernelTimer {
        KernelTimer {
            due: if spec.it_value == zero_time() {
                None
            } else {
                Some(spec.it_value.total())
            },
            unread: 0,
        }
    }

    /// The timer once the clock has come to `now`.
    pub open spec fn at(self, now: int) -> KernelTimer {
        match self.due {
            Some(due) if due <= now => KernelTimer { due: None, unread: 1 },
            _ => self,
        }
    }

    /// What a read returns: the 8 bytes of the count, or a failure where there is nothing to read.
    pub open spec fn read_returns(self) -> int {
        if self.unread > 0 {
            8
        } else {
            -1
        }
    }

    /// The timer after a read, which resets the count.
    pub open spec fn read(self) -> KernelTimer {
        KernelTimer { unread: 0, ..self }
    }

    /// The one-shot timer that this amounts to.
    pub open spec fn as_one_shot(self) -> OneShot {
        OneShot { due: self.due, expired: self.unread > 0 }
    }
}

/// A `timerfd` that is programmed with one-shot values is a one-shot timer: programming it arms it
/// and drops what came before, the disarming value disarms it, and a read that yields a count,
/// which is then at least one, observes the expiration.
pub proof fn law_timerfd_is_a_one_shot_timer(timer: KernelTimer, spec: Itimerspec, now: int)
    requires
        spec.it_interval == zero_time(),
    ensures
        spec.it_value != zero_time() ==> timer.programmed(spec).as_one_shot()
            == timer.as_one_shot().armed(spec.it_value.total()),
        spec.it_value == zero_time() ==> timer.programmed(spec).as_one_shot()
            == timer.as_one_shot().disarmed(),
        timer.at(now).as_one_shot() == timer.as_one_shot().at(now),
        timer.read().as_one_shot() == timer.as_one_shot().observed(),
        read_outcome(timer.read_returns(), timer.unread) is Expired
            <==> timer.as_one_shot().expired,
        read_outcome(timer.read_returns(), timer.unread) matches TimerfdRead::Expired(count)
            ==> count >= 1,
{
}

/// Arming never disarms: where the kernel's clock has left zero, no deadline is placed at the time
/// that disarms a timer.
pub proof fn law_arming_never_disarms(anchor: MonotonicAnchor, deadline: int)
    requires
        anchor.monotonic.normal(),
        anchor.monotonic.tv_sec >= 0,
        anchor.monotonic.total() > 0,
    ensures
        anchor.placed(deadline) != zero_time(),
{
}

} // verus!
