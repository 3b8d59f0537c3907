# tokio-osinterval

Periodic ticks for tokio from the operating system's own timers, with the scheduling verified in
Verus.

* `src/` is the verified library. It computes deadlines, the values that timers are armed with and
  the next step after every event. `behavior` and `interval` hold the missed-tick policies and the
  interval; `schedule` and `runs` state and prove the laws they obey; `periodic` is the ticker that
  leaves its schedule to the kernel; `sys` holds the arithmetic and the decisions of the `timerfd`,
  `kqueue` and Windows backends, what makes each of them a one-shot timer, and the laws
  of the counts that a periodic one reports.
* `app/` puts the library on tokio: system calls, the reactor, wakers and the `async` interface.
  Building it with `--cfg sleep_fallback` forces the `tokio::time::sleep_until` backend.
* `tests/` runs the library.

A tick counts as missed where it is observed more than five milliseconds late, as it does for
`tokio::time::Interval`; only then does the missed-tick behavior decide on the next deadline.

Time is counted in whole nanoseconds. A `TimePoint` is a distance from the origin of a `Clock`,
which reads tokio's monotonic clock. Operations whose result would lie beyond the last
representable point return `None` and change nothing.

What is trusted, not proved: `tokio::time::Instant::now` and `elapsed` (that a reading is the length
of a `std::time::Duration`), and `u64::from_ne_bytes` (that it reads its bytes in one order or the
other).
