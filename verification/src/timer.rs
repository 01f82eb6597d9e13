//! Virtual-clock timer primitives: a one-shot delay and a periodic tick.
//!
//! Both run on an explicit `u64` clock that the caller advances. The
//! periodic tick skips missed ticks (a slow consumer never receives a burst
//! of catch-up ticks) and supports resetting its phase either immediately or
//! a full period ahead.

use vstd::prelude::*;

use crate::Sleep;

verus! {

/// One-shot delay on the virtual clock.
pub struct VirtualSleep {
    deadline: u64,
}

impl Sleep for VirtualSleep {
    closed spec fn deadline(&self) -> u64 {
        self.deadline
    }

    fn sleep(duration: u64, now: u64) -> (s: Self) {
        VirtualSleep { deadline: duration.saturating_add(now) }
    }

    fn poll_elapsed(&mut self, now: u64) -> (elapsed: bool) {
        now >= self.deadline
    }
}

/// Periodic tick on the virtual clock.
///
/// At most one tick is ever pending: when a poll observes that the deadline
/// has passed, the next deadline is scheduled a full period after the poll,
/// so ticks missed by a slow consumer are skipped rather than queued.
pub struct VirtualInterval {
    period: u64,
    next_tick: u64,
}

impl VirtualInterval {
    /// The configured period. Always positive: a zero period would make the
    /// tick fire continuously, which callers encode by using no timer at all.
    pub closed spec fn period(&self) -> u64 {
        self.period
    }

    /// The instant from which on the next poll reports a tick.
    pub closed spec fn next_tick(&self) -> u64 {
        self.next_tick
    }

    pub closed spec fn wf(&self) -> bool {
        self.period > 0
    }

    /// Creates a ticker whose first tick is immediately pending.
    pub fn new(period: u64) -> (r: Self)
        requires
            period > 0,
        ensures
            r.wf(),
            r.period() == period,
            r.next_tick() == 0,
    {
        VirtualInterval { period, next_tick: 0 }
    }

    /// Polls for a tick at the instant `now`.
    pub fn poll_tick(&mut self, now: u64) -> (ticked: bool)
        requires
            old(self).wf(),
        ensures
            final(self).wf(),
            final(self).period() == old(self).period(),
            ticked == (now >= old(self).next_tick()),
            ticked ==> final(self).next_tick() == old(self).period().saturating_add(now),
            !ticked ==> final(self).next_tick() == old(self).next_tick(),
    {
        if now >= self.next_tick {
            self.next_tick = self.period.saturating_add(now);
            true
        } else {
            false
        }
    }

    /// Re-phases the ticker: the next tick fires a full period from `now`.
    pub fn reset(&mut self, now: u64)
        requires
            old(self).wf(),
        ensures
            final(self).wf(),
            final(self).period() == old(self).period(),
            final(self).next_tick() == old(self).period().saturating_add(now),
    {
        self.next_tick = self.period.saturating_add(now);
    }

    /// Re-phases the ticker: the next tick fires immediately, and the
    /// normal cadence resumes from there.
    pub fn reset_immediately(&mut self, now: u64)
        requires
            old(self).wf(),
        ensures
            final(self).wf(),
            final(self).period() == old(self).period(),
            final(self).next_tick() == now,
    {
        self.next_tick = now;
    }
}

} // verus!
