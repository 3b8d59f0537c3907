//! The periodic timer that the kernel runs for a ticker, and the laws of the counts it reports.

use vstd::arithmetic::div_mod::{lemma_div_is_ordered, lemma_fundamental_div_mod};
use vstd::arithmetic::mul::lemma_mul_inequality;
use vstd::prelude::*;

verus! {

/// A timer that the kernel fires again and again, on the timeline of some clock.
pub struct PeriodicTimer {
    /// The moment the timer was armed.
    pub started: int,
    /// The nanoseconds from one expiration to the next, and from the arming to the first.
    pub every: nat,
    /// The expirations that reads have reported.
    pub reported: nat,
}

impl PeriodicTimer {
    /// A timer that was armed at `started`.
    pub open spec fn armed(started: int, every: nat) -> PeriodicTimer {
        PeriodicTimer { started, every, reported: 0 }
    }

    /// The number of times the timer has expired once the clock has come to `now`.
    pub open spec fn expirations(self, now: int) -> nat {
        if now <= self.started {
            0
        } else {
            ((now - self.started) / self.every as int) as nat
        }
    }

    /// The expirations that a read at `now` reports: those that no read has reported before.
    pub open spec fn pending(self, now: int) -> nat {
        if self.expirations(now) <= self.reported {
            0
        } else {
            (self.expirations(now) - self.reported) as nat
        }
    }

    /// The timer after a read at `now`.
    pub open spec fn read(self, now: int) -> PeriodicTimer {
        PeriodicTimer { reported: self.reported + self.pending(now), ..self }
    }

    /// The timer after reads at each of `times`, one after the other.
    pub open spec fn after_reads(self, times: Seq<int>) -> PeriodicTimer
        decreases times.len(),
    {
        if times.len() == 0 {
            self
        } else {
            self.after_reads(times.drop_last()).read(times.last())
        }
    }

    /// The counts that reads at each of `times` report. A read that finds nothing is no tick and
    /// reports none.
    pub open spec fn ticks(self, times: Seq<int>) -> Seq<nat>
        decreases times.len(),
    {
        if times.len() == 0 {
            Seq::empty()
        } else {
            let before = self.ticks(times.drop_last());
            let count = self.after_reads(times.drop_last()).pending(times.last());
            if count == 0 {
                before
            } else {
                before.push(count)
            }
        }
    }
}

/// The sum of `counts`.
pub open spec fn total(counts: Seq<nat>) -> nat
    decreases counts.len(),
{
    if counts.len() == 0 {
        0
    } else {
        total(counts.drop_last()) + counts.last()
    }
}

/// No moment of `times` lies before the one that precedes it.
pub open spec fn rising(times: Seq<int>) -> bool {
    forall|i: int, j: int| 0 <= i <= j < times.len() ==> times[i] <= times[j]
}

/// A later moment has seen as many expirations as an earlier one, or more.
proof fn lemma_expirations_grow(timer: PeriodicTimer, now: int, later: int)
    requires
        timer.every > 0,
        now <= later,
    ensures
        timer.expirations(now) <= timer.expirations(later),
{
    if now > timer.started {
        lemma_div_is_ordered(now - timer.started, later - timer.started, timer.every as int);
    } else if later > timer.started {
        lemma_div_is_ordered(0, later - timer.started, timer.every as int);
    }
}

/// The expirations so far fit into the time that has passed.
proof fn lemma_expirations_take_time(timer: PeriodicTimer, now: int)
    requires
        timer.every > 0,
    ensures
        timer.expirations(now) > 0 ==> timer.expirations(now) * timer.every <= now - timer.started,
{
    if now > timer.started {
        lemma_fundamental_div_mod(now - timer.started, timer.every as int);
        lemma_div_is_ordered(0, now - timer.started, timer.every as int);
        vstd::arithmetic::mul::lemma_mul_is_commutative(
            timer.every as int,
            (now - timer.started) / timer.every as int,
        );
    }
}

/// Every expiration is reported once: each tick reports at least one, and after any number of
/// reads the counts add up to the expirations there have been at the last of them.
pub proof fn law_ticks_count_every_expiration(started: int, every: nat, times: Seq<int>)
    requires
        every > 0,
        rising(times),
    ensures
        ({
            let timer = PeriodicTimer::armed(started, every);
            let ticks = timer.ticks(times);
            &&& forall|i: int| 0 <= i < ticks.len() ==> #[trigger] ticks[i] >= 1
            &&& ticks.len() <= times.len()
            &&& timer.after_reads(times).reported == total(ticks)
            &&& total(ticks) == if times.len() == 0 {
                0
            } else {
                timer.expirations(times.last())
            }
            &&& timer.after_reads(times).started == started
            &&& timer.after_reads(times).every == every
        }),
    decreases times.len(),
{
    let timer = PeriodicTimer::armed(started, every);
    if times.len() > 0 {
        let earlier = times.drop_last();
        law_ticks_count_every_expiration(started, every, earlier);
        if earlier.len() > 0 {
            lemma_expirations_grow(timer, earlier.last(), times.last());
        }
        let before = timer.ticks(earlier);
        let ticks = timer.ticks(times);
        if ticks.len() > before.len() {
            assert(ticks.drop_last() =~= before);
        }
    }
}

/// Counts of at least one add up to no less than their number.
proof fn lemma_counts_add_up(counts: Seq<nat>)
    requires
        forall|i: int| 0 <= i < counts.len() ==> #[trigger] counts[i] >= 1,
    ensures
        counts.len() <= total(counts),
    decreases counts.len(),
{
    if counts.len() > 0 {
        let fewer = counts.drop_last();
        assert forall|i: int| 0 <= i < fewer.len() implies #[trigger] fewer[i] >= 1 by {
            assert(fewer[i] == counts[i]);
        }
        lemma_counts_add_up(fewer);
        assert(counts.last() >= 1);
    }
}

/// No expiration is reported twice or before its time: at the last of any number of reads, the
/// counts reported so far, times the period, are at most the time since `before`, a moment no
/// later than the arming. So `k` ticks take at least `k` periods, and none comes within the first.
pub proof fn law_ticks_never_outrun_the_clock(
    before: int,
    started: int,
    every: nat,
    period: nat,
    times: Seq<int>,
)
    requires
        0 < period <= every,
        before <= started,
        rising(times),
        times.len() > 0,
        before <= times.last(),
    ensures
        ({
            let ticks = PeriodicTimer::armed(started, every).ticks(times);
            &&& total(ticks) * period <= times.last() - before
            &&& ticks.len() * period <= times.last() - before
            &&& times.last() < before + period ==> ticks.len() == 0
        }),
{
    let timer = PeriodicTimer::armed(started, every);
    let ticks = timer.ticks(times);
    let sum = total(ticks);
    law_ticks_count_every_expiration(started, every, times);
    lemma_expirations_take_time(timer, times.last());
    lemma_counts_add_up(ticks);
    assert(sum * period <= sum * every) by (nonlinear_arith)
        requires
            period <= every,
    ;
    lemma_mul_inequality(ticks.len() as int, sum as int, period as int);
    if ticks.len() > 0 {
        lemma_mul_inequality(1, ticks.len() as int, period as int);
    } else {
        assert(sum == 0);
    }
}

} // verus!
