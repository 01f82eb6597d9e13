//! Interval throttler: a concrete [`Throttler`] built on the periodic tick.
//!
//! Implements leading-edge and trailing-edge admission: while idle, the
//! arrival of a pending item arms the policy and re-phases the ticker so
//! that it either fires immediately (leading) or a full period later
//! (trailing). A zero period disables admission control entirely: while
//! armed, every poll releases the pending item.

use vstd::prelude::*;

use crate::IntervalEdge;
use crate::throttle::{ThrottleIntervalConfig, Throttler};
use crate::timer::VirtualInterval;

verus! {

/// Internal state.
#[derive(Debug, Clone, Copy)]
enum State {
    Idle,
    Pending,
}

/// Throttles a stream by a fixed interval.
///
/// No ticker (`interval == None`) encodes a zero-length period: every
/// pending item is released immediately.
pub struct IntervalThrottler<T> {
    interval: Option<VirtualInterval>,
    edge: IntervalEdge,
    state: State,
    _marker: core::marker::PhantomData<T>,
}

/// Builds the periodic ticker for a throttling period; a zero period means
/// no ticker at all, so nothing is ever held back.
pub fn throttle_interval(period: u64) -> (r: Option<VirtualInterval>)
    ensures
        r is Some <==> period > 0,
        r matches Some(i) ==> i.wf() && i.period() == period,
{
    if period == 0 {
        return None;
    }
    Some(VirtualInterval::new(period))
}

impl<T> IntervalThrottler<T> {
    /// The configured edge trigger.
    pub closed spec fn edge(&self) -> IntervalEdge {
        self.edge
    }

    /// The periodic ticker, absent for a zero period.
    pub closed spec fn interval(&self) -> Option<VirtualInterval> {
        self.interval
    }

    /// Creates an idle throttler from its configuration.
    #[must_use]
    pub fn new(config: ThrottleIntervalConfig) -> (r: Self)
        ensures
            r.wf(),
            !r.armed(),
            r.passes_through() == (config.period == 0),
            r.edge() == config.edge,
            r.interval() is Some <==> config.period > 0,
            r.interval() matches Some(i) ==> i.period() == config.period,
            r.open_delay_bound() == config.period,
    {
        let ThrottleIntervalConfig { period, edge } = config;
        let interval = throttle_interval(period);
        IntervalThrottler { interval, edge, state: State::Idle, _marker: core::marker::PhantomData }
    }
}

impl<T> Throttler<T> for IntervalThrottler<T> {
    closed spec fn wf(&self) -> bool {
        self.interval matches Some(i) ==> i.wf()
    }

    closed spec fn armed(&self) -> bool {
        self.state is Pending
    }

    closed spec fn passes_through(&self) -> bool {
        self.interval is None
    }

    closed spec fn open_deadline(&self) -> u64 {
        match self.interval {
            Some(i) => i.next_tick(),
            None => 0,
        }
    }

    closed spec fn open_delay_bound(&self) -> u64 {
        match self.interval {
            Some(i) => i.period(),
            None => 0,
        }
    }

    fn throttle_pending(&mut self, now: u64)
        ensures
            final(self).edge() == old(self).edge(),
            old(self).armed() ==> *final(self) == *old(self),
            !old(self).armed() ==> ({
                &&& (old(self).interval() is None ==> final(self).interval() is None)
                &&& (old(self).interval() matches Some(i) ==> ({
                    &&& final(self).interval() matches Some(j)
                    &&& j.period() == i.period()
                    &&& j.next_tick() == (match old(self).edge() {
                        IntervalEdge::Leading => now,
                        IntervalEdge::Trailing => i.period().saturating_add(now),
                    })
                }))
            }),
    {
        match self.state {
            State::Idle => {
                self.state = State::Pending;
                match &mut self.interval {
                    None => {},
                    Some(interval) => {
                        match self.edge {
                            IntervalEdge::Leading => {
                                interval.reset_immediately(now);
                            },
                            IntervalEdge::Trailing => {
                                interval.reset(now);
                            },
                        }
                    },
                }
            },
            State::Pending => {},
        }
    }

    fn throttle_ready(&mut self, now: u64, next_item: Option<&T>)
        ensures
            final(self).edge() == old(self).edge(),
            final(self).interval() == old(self).interval(),
            final(self).armed() == next_item is Some,
    {
        match self.state {
            State::Idle => {
                proof {
                    assert(false);
                }
            },
            State::Pending => {
                if next_item.is_none() {
                    // Nothing was buffered when the interval elapsed: fall
                    // idle and stop consuming ticks until new work arrives.
                    self.state = State::Idle;
                }
            },
        }
    }

    fn poll_next(&mut self, now: u64) -> (open: bool)
        ensures
            final(self).edge() == old(self).edge(),
            !old(self).armed() ==> !open && *final(self) == *old(self),
            old(self).armed() ==> (match old(self).interval() {
                None => open && *final(self) == *old(self),
                Some(i) => ({
                    &&& open == (now >= i.next_tick())
                    &&& final(self).interval() matches Some(j)
                    &&& j.period() == i.period()
                    &&& (open ==> j.next_tick() == i.period().saturating_add(now))
                    &&& (!open ==> j.next_tick() == i.next_tick())
                }),
            }),
    {
        match self.state {
            State::Idle => false,
            State::Pending => {
                match &mut self.interval {
                    None => true,
                    Some(interval) => interval.poll_tick(now),
                }
            },
        }
    }
}

} // verus!
