//! What each operation of the timer backends answers, stated over its arguments and results in
//! plain numbers.
//!
//! Every law here takes a call, through `call_ensures`, and says what its result is; points and
//! spans are their nanoseconds.

use vstd::arithmetic::div_mod::lemma_fundamental_div_mod;
use vstd::prelude::*;

use crate::clock::Clock;
use crate::sys::fd::{
    cloexec_flags, next_action, setup_next, ErrorKind, FdAction, FdEvent, SetupAction, SetupStage,
};
use crate::sys::kqueue::{
    clamp_i64, duration_to_timer, one_shot_event, Change, KqueueEvent, OneShotEvent, Platform,
    TimerUnit,
};
use crate::sys::timerfd::{
    add_duration, big_endian, disarmed_spec, duration_to_timespec, little_endian, periodic_spec,
    timerfd_read, timerfd_read_of, Itimerspec, MonotonicAnchor, TimerfdRead, Timespec,
};
use crate::sys::windows::{
    clamp_to_i64, due_time_at, due_time_from, filetime_at, filetime_from, high_res_next,
    relative_due_time, relative_filetime, FileTime, HighResAction, HighResStage, State,
};
use crate::time::{Duration, TimePoint};

verus! {

/// A poll of a descriptor ends with what was read, with the failure of the reactor or of a read,
/// or in waiting for the reactor; a signal and a read that found nothing lead back to the reactor,
/// and a descriptor that is readable is read.
pub proof fn law_descriptor_answers_each_event<T, E>(event: FdEvent<T, E>, action: FdAction<T, E>)
    requires
        call_ensures(next_action::<T, E>, (event,), action),
    ensures
        match event {
            FdEvent::NotReady => action is Pending,
            FdEvent::Readable => action is Read,
            FdEvent::Completed(value) => action == FdAction::<T, E>::Ready(value),
            FdEvent::WouldBlock => action is PollAgain,
            FdEvent::ReactorFailed(error) => action == FdAction::<T, E>::Fail(error),
            FdEvent::ReadFailed(ErrorKind::Interrupted, _) => action is PollAgain,
            FdEvent::ReadFailed(ErrorKind::Other, error) => action == FdAction::<T, E>::Fail(error),
        },
{
}

/// A setup goes on from creating to registering, by way of programming where the timer is
/// periodic, finishes once the timer is registered, and fails at the first call that fails.
pub proof fn law_setup_goes_step_by_step(
    stage: SetupStage,
    periodic: bool,
    rc: i32,
    action: SetupAction,
)
    requires
        call_ensures(setup_next, (stage, periodic, rc), action),
    ensures
        rc < 0 <==> action is Fail,
        rc >= 0 ==> match stage {
            SetupStage::Create => if periodic {
                action == SetupAction::Continue(SetupStage::Program)
            } else {
                action == SetupAction::Continue(SetupStage::Register)
            },
            SetupStage::Program => action == SetupAction::Continue(SetupStage::Register),
            SetupStage::Register => action is Finish,
        },
{
}

/// The flag is added to the flags that could be read, and to no others.
pub proof fn law_close_on_exec_is_added(flags: i32, fd_cloexec: i32, set: Option<i32>)
    requires
        call_ensures(cloexec_flags, (flags, fd_cloexec), set),
    ensures
        set is Some <==> flags >= 0,
        set matches Some(set) ==> set == flags | fd_cloexec,
{
}

/// A sum of a time and a span is later by exactly the span, as long as its seconds can be held;
/// they stop at the greatest otherwise. Its nanoseconds are less than a second where those of the
/// time were.
pub proof fn law_sum_is_later_by_the_span(ts: Timespec, d: Duration, t: Timespec)
    requires
        call_ensures(add_duration, (ts, d), t),
        ts.tv_nsec + d@ % 1_000_000_000 <= 9_223_372_036_854_775_807,
    ensures
        t.tv_nsec == (if ts.tv_nsec + d@ % 1_000_000_000 >= 1_000_000_000 {
            ts.tv_nsec + d@ % 1_000_000_000 - 1_000_000_000
        } else {
            ts.tv_nsec + d@ % 1_000_000_000
        }),
        0 <= ts.tv_nsec < 1_000_000_000 ==> 0 <= t.tv_nsec < 1_000_000_000,
        d@ <= 9_223_372_036_854_775_807_999_999_999 && ts.tv_sec + d@ as int / 1_000_000_000
            < 9_223_372_036_854_775_807 ==> t.tv_sec * 1_000_000_000 + t.tv_nsec == ts.tv_sec
            * 1_000_000_000 + ts.tv_nsec + d@,
        d@ > 9_223_372_036_854_775_807_999_999_999 && ts.tv_sec < 0 ==> t.tv_sec == ts.tv_sec
            + 9_223_372_036_854_775_807 + (if ts.tv_nsec + d@ % 1_000_000_000 >= 1_000_000_000 {
            1int
        } else {
            0int
        }),
        d@ <= 9_223_372_036_854_775_807_999_999_999 && 0 <= ts.tv_nsec < 1_000_000_000
            && ts.tv_sec * 1_000_000_000 + ts.tv_nsec + d@ <= 9_223_372_036_854_775_807_999_999_999 ==> t.tv_sec * 1_000_000_000
            + t.tv_nsec == ts.tv_sec * 1_000_000_000 + ts.tv_nsec + d@,
        0 <= ts.tv_sec && 0 <= ts.tv_nsec < 1_000_000_000 && ts.tv_sec * 1_000_000_000 + ts.tv_nsec + d@
            > 9_223_372_036_854_775_807_999_999_999 ==> t.tv_sec == 9_223_372_036_854_775_807,
{
    lemma_fundamental_div_mod(d@ as int, 1_000_000_000);
}

/// A span is split into its seconds, up to the greatest that can be held, and the nanoseconds
/// beyond the last of them, always less than a second.
pub proof fn law_timespec_of_a_span_is_normal(d: Duration, t: Timespec)
    requires
        call_ensures(duration_to_timespec, (d,), t),
    ensures
        0 <= t.tv_nsec < 1_000_000_000,
        t.tv_nsec == d@ % 1_000_000_000,
        d@ <= 9_223_372_036_854_775_807_999_999_999 ==> t.tv_sec * 1_000_000_000 + t.tv_nsec == d@,
        d@ > 9_223_372_036_854_775_807_999_999_999 ==> t.tv_sec == 9_223_372_036_854_775_807,
{
    lemma_fundamental_div_mod(d@ as int, 1_000_000_000);
}

/// A periodic timer first fires after one period and then every period; both times are normal, as
/// the kernel asks, make up the period as long as its seconds can be held, and do not disarm the
/// timer.
pub proof fn law_periodic_programming_is_normal(period: Duration, spec: Itimerspec)
    requires
        call_ensures(periodic_spec, (period,), spec),
    ensures
        0 <= spec.it_value.tv_nsec < 1_000_000_000,
        0 <= spec.it_interval.tv_nsec < 1_000_000_000,
        0 <= spec.it_value.tv_sec,
        spec.it_value.tv_sec == spec.it_interval.tv_sec,
        spec.it_value.tv_nsec == spec.it_interval.tv_nsec,
        spec.it_interval.tv_nsec == period@ % 1_000_000_000,
        period@ <= 9_223_372_036_854_775_807_999_999_999 ==> spec.it_interval.tv_sec * 1_000_000_000
            + spec.it_interval.tv_nsec == period@,
        period@ > 9_223_372_036_854_775_807_999_999_999 ==> spec.it_interval.tv_sec
            == 9_223_372_036_854_775_807,
        period@ > 0 ==> spec.it_value.tv_sec > 0 || spec.it_value.tv_nsec > 0,
{
    lemma_fundamental_div_mod(period@ as int, 1_000_000_000);
}

/// A timer is disarmed by times that are all zero.
pub proof fn law_disarming_is_all_zero(spec: Itimerspec)
    requires
        call_ensures(disarmed_spec, (), spec),
    ensures
        spec.it_value.tv_sec == 0,
        spec.it_value.tv_nsec == 0,
        spec.it_interval.tv_sec == 0,
        spec.it_interval.tv_nsec == 0,
{
}

/// A one-shot timer expires exactly as long after the anchor, on the kernel's clock, as the
/// deadline lies after it on the interval's, and at the anchor for a deadline before it. Its time
/// is normal, and a second expiration is never asked for. Only a time whose seconds cannot be held
/// is cut off, at the last second.
pub proof fn law_one_shot_timer_is_as_far_off_as_the_deadline(
    anchor: MonotonicAnchor,
    deadline: TimePoint,
    spec: Itimerspec,
)
    requires
        call_ensures(MonotonicAnchor::one_shot_spec, (&anchor, deadline), spec),
        0 <= anchor.monotonic.tv_nsec < 1_000_000_000,
    ensures
        spec.it_interval.tv_sec == 0,
        spec.it_interval.tv_nsec == 0,
        0 <= spec.it_value.tv_nsec < 1_000_000_000,
        0 <= deadline@ - anchor.epoch@ <= 9_223_372_036_854_775_807_999_999_999
            && anchor.monotonic.tv_sec * 1_000_000_000 + anchor.monotonic.tv_nsec + (deadline@
            - anchor.epoch@) <= 9_223_372_036_854_775_807_999_999_999 ==> (spec.it_value.tv_sec
            * 1_000_000_000 + spec.it_value.tv_nsec) - (anchor.monotonic.tv_sec * 1_000_000_000
            + anchor.monotonic.tv_nsec) == deadline@ - anchor.epoch@,
        deadline@ <= anchor.epoch@ ==> spec.it_value.tv_sec == anchor.monotonic.tv_sec
            && spec.it_value.tv_nsec == anchor.monotonic.tv_nsec,
        0 <= anchor.monotonic.tv_sec && anchor.monotonic.tv_sec * 1_000_000_000
            + anchor.monotonic.tv_nsec + (deadline@ - anchor.epoch@)
            > 9_223_372_036_854_775_807_999_999_999 && deadline@ >= anchor.epoch@
            ==> spec.it_value.tv_sec == 9_223_372_036_854_775_807,
        0 <= anchor.monotonic.tv_sec && (anchor.monotonic.tv_sec > 0 || anchor.monotonic.tv_nsec
            > 0) ==> spec.it_value.tv_sec > 0 || spec.it_value.tv_nsec > 0,
{
    let d = crate::time::span_between(anchor.epoch@, deadline@) as int;
    lemma_fundamental_div_mod(d, 1_000_000_000);
}

/// The number that 8 bytes stand for, weighed one by one from either end.
pub proof fn law_bytes_are_weighed_by_their_place(bytes: Seq<u8>)
    requires
        bytes.len() == 8,
    ensures
        little_endian(bytes) == bytes[0] + 0x100 * bytes[1] + 0x1_0000 * bytes[2] + 0x100_0000
            * bytes[3] + 0x1_0000_0000 * bytes[4] + 0x100_0000_0000 * bytes[5] + 0x1_0000_0000_0000
            * bytes[6] + 0x100_0000_0000_0000 * bytes[7],
        big_endian(bytes) == bytes[7] + 0x100 * bytes[6] + 0x1_0000 * bytes[5] + 0x100_0000
            * bytes[4] + 0x1_0000_0000 * bytes[3] + 0x100_0000_0000 * bytes[2] + 0x1_0000_0000_0000
            * bytes[1] + 0x100_0000_0000_0000 * bytes[0],
{
    lemma_eight_bytes(bytes);
    lemma_eight_bytes(bytes.reverse());
}

proof fn lemma_eight_bytes(bytes: Seq<u8>)
    requires
        bytes.len() == 8,
    ensures
        little_endian(bytes) == bytes[0] + 0x100 * bytes[1] + 0x1_0000 * bytes[2] + 0x100_0000
            * bytes[3] + 0x1_0000_0000 * bytes[4] + 0x100_0000_0000 * bytes[5] + 0x1_0000_0000_0000
            * bytes[6] + 0x100_0000_0000_0000 * bytes[7],
{
    reveal_with_fuel(little_endian, 9);
    let s1 = bytes.drop_first();
    let s2 = s1.drop_first();
    let s3 = s2.drop_first();
    let s4 = s3.drop_first();
    let s5 = s4.drop_first();
    let s6 = s5.drop_first();
    let s7 = s6.drop_first();
    assert(s1[0] == bytes[1] && s2[0] == bytes[2] && s3[0] == bytes[3] && s4[0] == bytes[4] && s5[0]
        == bytes[5] && s6[0] == bytes[6] && s7[0] == bytes[7]);
    assert(s7.drop_first().len() == 0);
}

/// Only a read of all 8 bytes yields a count, the one that was read; a negative result is a failed
/// call, and anything else is nothing to read.
pub proof fn law_counter_needs_all_of_its_bytes(rc: isize, count: u64, read: TimerfdRead)
    requires
        call_ensures(timerfd_read_of, (rc, count), read),
    ensures
        rc == 8 ==> read == TimerfdRead::Expired(count),
        rc < 0 ==> read is CallFailed,
        0 <= rc && rc != 8 ==> read is Nothing,
{
}

/// The count of a read is that of its bytes, in the machine's order; see
/// [`law_counter_needs_all_of_its_bytes`].
pub proof fn law_counter_is_read_from_its_bytes(rc: isize, bytes: [u8; 8], read: TimerfdRead)
    requires
        call_ensures(timerfd_read, (rc, bytes), read),
    ensures
        rc == 8 ==> (read matches TimerfdRead::Expired(count)
            && crate::sys::timerfd::counter_reads(bytes, count)),
        rc < 0 ==> read is CallFailed,
        0 <= rc && rc != 8 ==> read is Nothing,
{
}

/// A read of the counter is repeated just where a signal cut it short.
pub proof fn law_timerfd_drain_repeats_after_a_signal(rc: isize, interrupted: bool, again: bool)
    requires
        call_ensures(crate::sys::timerfd::drain_again, (rc, interrupted), again),
    ensures
        again <==> rc < 0 && interrupted,
{
}

/// Numbers are cut off at the greatest that an `i64` holds.
pub proof fn law_numbers_are_cut_off(value: u128, kqueue: i64, windows: i64)
    requires
        call_ensures(clamp_i64, (value,), kqueue),
        call_ensures(clamp_to_i64, (value,), windows),
    ensures
        value <= 9_223_372_036_854_775_807 ==> kqueue == value && windows == value,
        value > 9_223_372_036_854_775_807 ==> kqueue == 9_223_372_036_854_775_807 && windows
            == 9_223_372_036_854_775_807,
{
}

/// A timer in nanoseconds takes its span as it is, but for an empty one, which takes a nanosecond,
/// and one that is cut off.
pub proof fn law_nanosecond_timer_takes_the_span(d: Duration, fflags: u32, timer: (i64, u32))
    requires
        call_ensures(duration_to_timer, (d, TimerUnit::Nanoseconds { fflags }), timer),
    ensures
        d@ == 0 ==> timer.0 == 1,
        0 < d@ <= 9_223_372_036_854_775_807 ==> timer.0 == d@,
        d@ > 9_223_372_036_854_775_807 ==> timer.0 == 9_223_372_036_854_775_807,
        timer.1 == fflags,
{
}

/// A timer in milliseconds takes the least number of them that covers its span, one for an empty
/// one, and the greatest there is where that is more.
pub proof fn law_millisecond_timer_covers_the_span(d: Duration, timer: (i64, u32))
    requires
        call_ensures(duration_to_timer, (d, TimerUnit::Milliseconds), timer),
    ensures
        d@ == 0 ==> timer.0 == 1,
        0 < d@ <= 9_223_372_036_854_775_807_000_000 ==> (timer.0 - 1) * 1_000_000 < d@ <= timer.0
            * 1_000_000,
        d@ > 9_223_372_036_854_775_807_000_000 ==> timer.0 == 9_223_372_036_854_775_807,
        timer.1 == 0,
{
}

/// A change that arms a one-shot timer holds the time from `now` to the deadline, one unit where
/// the deadline has passed, and asks for one expiration.
pub proof fn law_one_shot_change_holds_the_time_left(
    platform: Platform,
    now: TimePoint,
    deadline: TimePoint,
    change: Change,
)
    requires
        call_ensures(Platform::one_shot_change_from, (&platform, now, deadline), change),
    ensures
        change.ident == 1,
        change.flags == platform.ev_add | platform.ev_oneshot,
        deadline@ <= now@ ==> change.data == 1,
        platform.unit matches TimerUnit::Nanoseconds { fflags } ==> {
            &&& change.fflags == fflags | platform.extra_fflags
            &&& 0 < deadline@ - now@ <= 9_223_372_036_854_775_807 ==> change.data == deadline@
                - now@
            &&& deadline@ - now@ > 9_223_372_036_854_775_807 ==> change.data
                == 9_223_372_036_854_775_807
        },
        platform.unit is Milliseconds ==> {
            &&& change.fflags == 0u32 | platform.extra_fflags
            &&& 0 < deadline@ - now@ <= 9_223_372_036_854_775_807_000_000 ==> (change.data - 1)
                * 1_000_000 < deadline@ - now@ <= change.data * 1_000_000
            &&& deadline@ - now@ > 9_223_372_036_854_775_807_000_000 ==> change.data
                == 9_223_372_036_854_775_807
        },
{
}

/// As [`law_one_shot_change_holds_the_time_left`], from the moment that the clock read.
pub proof fn law_one_shot_change_counts_from_the_clock(
    platform: Platform,
    clock: Clock,
    deadline: TimePoint,
    change: Change,
)
    requires
        call_ensures(Platform::one_shot_change, (&platform, &clock, deadline), change),
    ensures
        change.ident == 1,
        change.flags == platform.ev_add | platform.ev_oneshot,
        exists|now: TimePoint| #[trigger]
            call_ensures(Clock::now, (&clock,), now) && (deadline@ <= now@ ==> change.data == 1) && (
            platform.unit matches TimerUnit::Nanoseconds { fflags } ==> change.fflags == fflags
                | platform.extra_fflags && (0 < deadline@ - now@ <= 9_223_372_036_854_775_807
                ==> change.data == deadline@ - now@) && (deadline@ - now@
                > 9_223_372_036_854_775_807 ==> change.data == 9_223_372_036_854_775_807)) && (
            platform.unit is Milliseconds ==> change.fflags == 0u32 | platform.extra_fflags && (0
                < deadline@ - now@ <= 9_223_372_036_854_775_807_000_000 ==> (change.data - 1)
                * 1_000_000 < deadline@ - now@ <= change.data * 1_000_000) && (deadline@ - now@
                > 9_223_372_036_854_775_807_000_000 ==> change.data
                == 9_223_372_036_854_775_807)),
{
    let now = choose|now: TimePoint| #[trigger]
        clock.reads(now) && change == platform.armed(
            crate::time::span_between(now@, deadline@),
            platform.ev_add | platform.ev_oneshot,
        );
    crate::answers::law_readings_come_from_the_clock(clock, now);
    assert(call_ensures(Clock::now, (&clock,), now));
}

/// A change that arms a periodic timer holds the period and does not limit the expirations.
pub proof fn law_periodic_change_holds_the_period(
    platform: Platform,
    period: Duration,
    change: Change,
)
    requires
        call_ensures(Platform::periodic_change, (&platform, period), change),
    ensures
        change.ident == 1,
        change.flags == platform.ev_add,
        period@ == 0 ==> change.data == 1,
        platform.unit matches TimerUnit::Nanoseconds { fflags } ==> {
            &&& change.fflags == fflags | platform.extra_fflags
            &&& 0 < period@ <= 9_223_372_036_854_775_807 ==> change.data == period@
            &&& period@ > 9_223_372_036_854_775_807 ==> change.data == 9_223_372_036_854_775_807
        },
        platform.unit is Milliseconds ==> {
            &&& change.fflags == 0u32 | platform.extra_fflags
            &&& 0 < period@ <= 9_223_372_036_854_775_807_000_000 ==> (change.data - 1) * 1_000_000
                < period@ <= change.data * 1_000_000
            &&& period@ > 9_223_372_036_854_775_807_000_000 ==> change.data
                == 9_223_372_036_854_775_807
        },
{
}

/// The change that removes a timer names the timer that the other changes arm.
pub proof fn law_delete_change_names_the_timer(
    platform: Platform,
    period: Duration,
    armed: Change,
    deleted: Change,
)
    requires
        call_ensures(Platform::periodic_change, (&platform, period), armed),
        call_ensures(Platform::delete_change, (&platform,), deleted),
    ensures
        deleted.ident == 1,
        deleted.ident == armed.ident,
        deleted.flags == platform.ev_delete,
        deleted.fflags == 0,
        deleted.data == 0,
{
}

/// A call that takes an event off the queue of a periodic timer failed, found none, found the
/// timer's failure, or found the count that the kernel gives.
pub proof fn law_periodic_event_is_what_the_kernel_gives(
    platform: Platform,
    rc: i32,
    flags: u32,
    data: i64,
    event: KqueueEvent,
)
    requires
        call_ensures(Platform::periodic_event, (&platform, rc, flags, data), event),
    ensures
        rc < 0 ==> event is CallFailed,
        rc == 0 ==> event is Nothing,
        rc > 0 && flags & platform.ev_error != 0 ==> event == KqueueEvent::TimerFailed(data as i32),
        rc > 0 && flags & platform.ev_error != 0 && -2_147_483_648 <= data <= 2_147_483_647 ==> (
        event matches KqueueEvent::TimerFailed(errno) && errno == data),
        rc > 0 && flags & platform.ev_error == 0 ==> event == KqueueEvent::Expired(data as u64),
        rc > 0 && flags & platform.ev_error == 0 && data >= 0 ==> (event matches
            KqueueEvent::Expired(count) && count == data),
{
}

/// A call that takes events off the queue of a one-shot timer failed, found none, or found the
/// expiration.
pub proof fn law_one_shot_event_tells_by_the_count(rc: i32, event: OneShotEvent)
    requires
        call_ensures(one_shot_event, (rc,), event),
    ensures
        rc < 0 <==> event is CallFailed,
        rc == 0 <==> event is Nothing,
        rc > 0 <==> event is Expired,
{
}

/// Taking events off a queue is repeated just where a signal cut it short or the buffer was filled.
pub proof fn law_kqueue_drain_repeats_while_full(
    rc: i32,
    interrupted: bool,
    capacity: usize,
    again: bool,
)
    requires
        call_ensures(crate::sys::kqueue::drain_again, (rc, interrupted, capacity), again),
    ensures
        rc < 0 ==> (again <==> interrupted),
        rc >= 0 ==> (again <==> rc >= capacity),
{
}

/// A due time is relative, so negative, and holds the whole intervals of 100 nanoseconds in its
/// span, but at least one and at most the greatest number there is.
pub proof fn law_due_time_holds_the_span(d: Duration, due: i64)
    requires
        call_ensures(relative_due_time, (d,), due),
    ensures
        due < 0,
        d@ < 100 ==> due == -1,
        100 <= d@ < 922_337_203_685_477_580_800 ==> -due * 100 <= d@ < -due * 100 + 100,
        d@ >= 922_337_203_685_477_580_800 ==> due == -9_223_372_036_854_775_807,
{
}

/// The halves of a due time make up its 64 bits, those of the negative number.
pub proof fn law_halves_make_up_the_due_time(d: Duration, due: i64, halves: FileTime)
    requires
        call_ensures(relative_due_time, (d,), due),
        call_ensures(relative_filetime, (d,), halves),
    ensures
        halves.high_date_time * 0x1_0000_0000 + halves.low_date_time == due
            + 0x1_0000_0000_0000_0000,
{
}

/// A timer that is to expire at a deadline is due after the time from `now` to it, in halves or in
/// one piece.
pub proof fn law_due_time_holds_the_time_left(
    now: TimePoint,
    deadline: TimePoint,
    due: i64,
    halves: FileTime,
)
    requires
        call_ensures(due_time_from, (now, deadline), due),
        call_ensures(filetime_from, (now, deadline), halves),
    ensures
        due < 0,
        deadline@ - now@ < 100 ==> due == -1,
        100 <= deadline@ - now@ < 922_337_203_685_477_580_800 ==> -due * 100 <= deadline@ - now@
            < -due * 100 + 100,
        deadline@ - now@ >= 922_337_203_685_477_580_800 ==> due == -9_223_372_036_854_775_807,
        halves.high_date_time * 0x1_0000_0000 + halves.low_date_time == due
            + 0x1_0000_0000_0000_0000,
{
}

/// As [`law_due_time_holds_the_time_left`], from the moment that the clock read.
pub proof fn law_due_time_counts_from_the_clock(clock: Clock, deadline: TimePoint, due: i64)
    requires
        call_ensures(due_time_at, (&clock, deadline), due),
    ensures
        due < 0,
        exists|now: TimePoint| #[trigger]
            call_ensures(Clock::now, (&clock,), now) && (deadline@ - now@ < 100 ==> due == -1) && (100
                <= deadline@ - now@ < 922_337_203_685_477_580_800 ==> -due * 100 <= deadline@ - now@
                < -due * 100 + 100) && (deadline@ - now@ >= 922_337_203_685_477_580_800 ==> due
                == -9_223_372_036_854_775_807),
{
    let now = choose|now: TimePoint| #[trigger]
        clock.reads(now) && due == -crate::sys::windows::due_intervals(
            crate::time::span_between(now@, deadline@),
        );
    crate::answers::law_readings_come_from_the_clock(clock, now);
    assert(call_ensures(Clock::now, (&clock,), now));
}

/// As [`law_due_time_counts_from_the_clock`], in halves.
pub proof fn law_halves_count_from_the_clock(clock: Clock, deadline: TimePoint, halves: FileTime)
    requires
        call_ensures(filetime_at, (&clock, deadline), halves),
    ensures
        exists|now: TimePoint, due: int| #[trigger]
            call_ensures(Clock::now, (&clock,), now) && #[trigger] (due + 0x1_0000_0000_0000_0000)
                == halves.high_date_time * 0x1_0000_0000 + halves.low_date_time && due < 0 && (
            deadline@ - now@ < 100 ==> due == -1) && (100 <= deadline@ - now@
                < 922_337_203_685_477_580_800 ==> -due * 100 <= deadline@ - now@ < -due * 100
                + 100) && (deadline@ - now@ >= 922_337_203_685_477_580_800 ==> due
                == -9_223_372_036_854_775_807),
{
    let now = choose|now: TimePoint| #[trigger]
        clock.reads(now) && halves.signed() == -crate::sys::windows::due_intervals(
            crate::time::span_between(now@, deadline@),
        );
    crate::answers::law_readings_come_from_the_clock(clock, now);
    assert(call_ensures(Clock::now, (&clock,), now));
    let due = halves.signed();
    assert(due + 0x1_0000_0000_0000_0000 == halves.high_date_time * 0x1_0000_0000
        + halves.low_date_time);
}

/// A new timer has not expired, and no task waits for it.
pub proof fn law_new_timer_has_not_expired<W>(state: State<W>)
    requires
        call_ensures(State::<W>::new, (), state),
    ensures
        !state@.fired,
        state@.waker is None,
{
}

/// The registered waker is the one that waits.
pub proof fn law_registered_waker_is_the_one_that_waits<W>(state: State<W>, waker: Option<&W>)
    requires
        call_ensures(State::<W>::registered, (&state,), waker),
    ensures
        waker is Some <==> state@.waker is Some,
        waker matches Some(w) ==> state@.waker == Some(*w),
{
}

/// An expiration is noted, and hands out the waker of the task that waits, which waits no more.
pub proof fn law_expiration_hands_out_the_waker<W>(state: &mut State<W>, waker: Option<W>)
    requires
        call_ensures(State::<W>::fire, (state,), waker),
    ensures
        final(state)@.fired,
        final(state)@.waker is None,
        waker == old(state)@.waker,
{
}

/// A poll finds the timer expired exactly where it was, and uses that up; otherwise a task is left
/// waiting: the one that polled, unless the one registered before is the same.
pub proof fn law_poll_observes_the_expiration_or_waits<W>(
    state: &mut State<W>,
    waker: W,
    same: bool,
    expired: bool,
)
    requires
        call_ensures(State::<W>::poll, (state, waker, same), expired),
    ensures
        expired <==> old(state)@.fired,
        !final(state)@.fired,
        expired ==> final(state)@.waker == old(state)@.waker,
        !expired && old(state)@.waker is Some && same ==> final(state)@.waker == old(state)@.waker,
        !expired && (old(state)@.waker is None || !same) ==> final(state)@.waker == Some(waker),
{
}

/// Arming and disarming forget an expiration and a task that waits.
pub proof fn law_reset_leaves_nothing<W>(state: &mut State<W>)
    requires
        call_ensures(State::<W>::reset, (state,), ()),
    ensures
        !final(state)@.fired,
        final(state)@.waker is None,
{
}

/// A high-resolution timer is probed for, created and waited on, in this order; a failure leads to
/// a threadpool timer, and closes the waitable timer just where it had been created.
pub proof fn law_high_resolution_setup_goes_step_by_step(
    stage: HighResStage,
    succeeded: bool,
    action: HighResAction,
)
    requires
        call_ensures(high_res_next, (stage, succeeded), action),
    ensures
        match stage {
            HighResStage::Probe => if succeeded {
                action == HighResAction::Continue(HighResStage::CreateTimer)
            } else {
                action is UsePool
            },
            HighResStage::CreateTimer => if succeeded {
                action == HighResAction::Continue(HighResStage::CreateWait)
            } else {
                action is UsePool
            },
            HighResStage::CreateWait => if succeeded {
                action is Finish
            } else {
                action is CloseTimerAndUsePool
            },
        },
{
}

/// Every span can be added to a time with less than a second of nanoseconds, and a timer can be
/// programmed for every deadline from an anchor with such a time.
pub proof fn law_normal_times_are_accepted(
    ts: Timespec,
    d: Duration,
    epoch: TimePoint,
    deadline: TimePoint,
)
    requires
        0 <= ts.tv_nsec < 1_000_000_000,
    ensures
        call_requires(add_duration, (ts, d)),
        call_requires(
            MonotonicAnchor::one_shot_spec,
            (&MonotonicAnchor { epoch, monotonic: ts }, deadline),
        ),
{
}

} // verus!
