//! The refresh scheduler: tracks how much of the refresh interval has
//! elapsed and fires a refresh request exactly when a full period has
//! passed. Time is a monotonic clock reading in milliseconds; the caller
//! samples the clock and hands the reading in.

use vstd::prelude::*;

verus! {

/// Scheduler state: the fixed refresh period and the deadline at which the
/// next refresh is due. The interval currently running began at
/// `deadline_ms - period_ms`.
pub struct RefreshScheduler {
    pub period_ms: u64,
    pub deadline_ms: u64,
}

impl RefreshScheduler {
    /// Well-formed: a positive period, and a deadline no earlier than one
    /// period after the clock's zero.
    pub open spec fn wf(self) -> bool {
        &&& self.period_ms > 0
        &&& self.deadline_ms >= self.period_ms
    }

    /// How much of the current interval has elapsed at `now`, clamped to
    /// `[0, period_ms]`. Progress toward the next refresh is this value
    /// divided by the period.
    pub open spec fn elapsed_spec(self, now: int) -> int {
        let start = self.deadline_ms - self.period_ms;
        if now <= start {
            0
        } else if now >= self.deadline_ms {
            self.period_ms as int
        } else {
            now - start
        }
    }

    /// A refresh is due once the deadline is reached, that is once progress
    /// has reached 1.
    pub open spec fn due(self, now: int) -> bool {
        now >= self.deadline_ms
    }

    pub fn new(now: u64, period_ms: u64) -> (s: RefreshScheduler)
        requires
            period_ms > 0,
            now + period_ms <= u64::MAX,
        ensures
            s.wf(),
            s.period_ms == period_ms,
            s.deadline_ms == now + period_ms,
            s.elapsed_spec(now as int) == 0,
    {
        RefreshScheduler { period_ms, deadline_ms: now + period_ms }
    }

    /// The clamped numerator of the progress fraction at `now`; the
    /// denominator is the period. The two together let a renderer show a
    /// gauge without the library ever dividing.
    pub fn elapsed(&self, now: u64) -> (r: u64)
        requires
            self.wf(),
        ensures
            r == self.elapsed_spec(now as int),
            r <= self.period_ms,
    {
        if now >= self.deadline_ms {
            self.period_ms
        } else {
            let remaining = self.deadline_ms - now;
            if remaining >= self.period_ms {
                0
            } else {
                self.period_ms - remaining
            }
        }
    }

    /// Called once per tick: reports whether a refresh fires at `now`. On a
    /// fire the deadline advances to one period after `now`, which resets
    /// progress to exactly zero; mid-interval nothing changes.
    pub fn on_tick(&mut self, now: u64) -> (fire: bool)
        requires
            old(self).wf(),
            now + old(self).period_ms <= u64::MAX,
        ensures
            final(self).wf(),
            final(self).period_ms == old(self).period_ms,
            fire == old(self).due(now as int),
            fire ==> final(self).deadline_ms == now + final(self).period_ms,
            fire ==> final(self).elapsed_spec(now as int) == 0,
            !fire ==> *final(self) == *old(self),
    {
        if now >= self.deadline_ms {
            self.deadline_ms = now + self.period_ms;
            true
        } else {
            false
        }
    }
}

/// Between two triggers progress strictly increases: it is exactly 0 at the
/// start of the interval and grows with every later instant up to the
/// deadline, where it reaches the full period.
pub proof fn lemma_progress_strictly_increases(s: RefreshScheduler, n1: int, n2: int)
    requires
        s.wf(),
        s.deadline_ms - s.period_ms <= n1 < n2 <= s.deadline_ms,
    ensures
        s.elapsed_spec(n1) < s.elapsed_spec(n2),
        s.elapsed_spec(s.deadline_ms - s.period_ms) == 0,
        s.elapsed_spec(s.deadline_ms as int) == s.period_ms,
{
}

/// Consecutive fires are at least one period apart: a fire at `t1` moves the
/// deadline to `t1 + period`, and a later fire at `t2` needs that deadline
/// reached, so at least a full period lies between the two.
pub proof fn lemma_fires_at_least_period_apart(s: RefreshScheduler, t1: int, t2: int)
    requires
        s.wf(),
        s.deadline_ms == t1 + s.period_ms,
        s.due(t2),
    ensures
        t2 - t1 >= s.period_ms,
{
}

} // verus!
