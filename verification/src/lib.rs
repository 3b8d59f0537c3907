//! Periodic ticks from the operating system's own timers.
//!
//! [`OsInterval`] schedules ticks on a monotonic clock and drives a one-shot backend timer, which
//! it has armed anew for every tick; what happens to missed ticks is decided by
//! [`MissedTickBehavior`], alike on every platform. [`PeriodicInterval`] leaves the schedule to a
//! single periodic kernel timer and counts its expirations.
//!
//! This crate computes and decides: deadlines, the values that timers are armed with, and the next
//! step after each event. System calls, the reactor and the tasks are its caller's.
//!
//! * [`time`] and [`clock`]: spans, points in time, and the clock they are measured on.
//! * [`behavior`] and [`interval`]: deadlines and ticks; [`schedule`] and [`runs`] state the laws
//!   they obey.
//! * [`periodic`]: the ticker that the kernel drives.
//! * [`sys`]: the arithmetic and the decisions of the timer backends.
//! * [`answers`] and [`sys::answers`]: what each operation answers, in plain numbers.

pub mod answers;
pub mod behavior;
pub mod clock;
pub mod interval;
pub mod periodic;
pub mod runs;
pub mod schedule;
pub mod sys;
pub mod time;

pub use behavior::MissedTickBehavior;
pub use clock::Clock;
pub use interval::{interval, interval_at, OsInterval};
pub use periodic::{Expirations, PeriodicInterval};
pub use time::{Duration, TimePoint};
