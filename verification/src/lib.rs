//! Rate- and redundancy-shaping transformations over pull-based sequences.
//!
//! The combinators in this crate govern *when* an item may leave a pipeline:
//! throttling (rate limiting with a pluggable timing policy), debouncing
//! (waiting for a quiet period), and adjacent-duplicate filtering. The
//! polling state machines run on an explicit virtual clock, so they are
//! deterministic and fully verified; asynchronous runtimes drive them by
//! translating their own timer and stream readiness into the capability
//! traits declared here.

use vstd::prelude::*;

pub mod subseq;
pub mod timer;
pub mod throttle;
pub mod interval;
pub mod debounce;
pub mod distinct;
pub mod dedup;
pub mod script;
pub mod sim;

verus! {

/// Interval edge trigger variants
#[derive(Debug, Clone, Copy, PartialEq, Eq, PartialOrd, Ord, Hash)]
pub enum IntervalEdge {
    Leading,
    Trailing,
}

/// Outcome of polling a sequence: the next item, permanent exhaustion, or
/// "not yet" (the poll must be repeated later).
#[derive(Debug, PartialEq, Eq)]
pub enum StreamPoll<T> {
    Item(T),
    Finished,
    NotReady,
}

/// One-shot delay capability: becomes ready exactly once the configured
/// duration has elapsed on the clock, and stays ready afterwards.
pub trait Sleep: Sized {
    /// The instant from which on the delay reports "elapsed".
    spec fn deadline(&self) -> u64;

    /// Starts a delay of `duration`, measured from the instant `now`.
    ///
    /// A duration that would overflow the clock saturates: such a delay
    /// never elapses before the clock itself ends.
    fn sleep(duration: u64, now: u64) -> (s: Self)
        ensures
            s.deadline() == duration.saturating_add(now),
    ;

    /// Reports whether the delay has elapsed at the instant `now`.
    fn poll_elapsed(&mut self, now: u64) -> (elapsed: bool)
        ensures
            final(self).deadline() == old(self).deadline(),
            elapsed == (now >= old(self).deadline()),
    ;
}

/// Upstream sequence capability: a pull-based producer of items.
///
/// Yields items one at a time; reports exhaustion exactly once, after which
/// it must never be polled again. `yielded()` is the abstract history of all
/// items handed out so far, and `remaining()` bounds how many more items can
/// still come, which makes drain loops provably terminating.
pub trait Source<T> {
    /// Well-formedness of the producer's internal state.
    spec fn wf(&self) -> bool;

    /// All items handed out so far, in arrival order.
    spec fn yielded(&self) -> Seq<T>;

    /// The complete sequence of items this producer yields over its whole
    /// lifetime; `yielded()` is always a prefix of it.
    spec fn script(&self) -> Seq<T>;

    /// Whether exhaustion has been reported (permanent).
    spec fn exhausted(&self) -> bool;

    /// An upper bound on the number of items still to be yielded.
    spec fn remaining(&self) -> nat;

    /// The instant by which the next poll is guaranteed to make progress:
    /// polled at or after it (before exhaustion), the producer yields an
    /// item or reports exhaustion; only before it may it be not ready.
    spec fn ready_by(&self) -> u64;

    /// A bound on `ready_by()` over the producer's whole remaining
    /// lifetime; it never increases.
    spec fn ready_bound(&self) -> u64;

    /// A well-formed producer has handed out a prefix of its complete item
    /// sequence, all of it once exhausted.
    proof fn wf_script_facts(&self)
        requires
            self.wf(),
        ensures
            self.yielded().len() <= self.script().len(),
            self.yielded() == self.script().take(self.yielded().len() as int),
            self.exhausted() ==> self.yielded() == self.script(),
            !self.exhausted() ==> self.ready_by() <= self.ready_bound(),
    ;

    /// Polls for the next item at the instant `now`.
    ///
    /// Exhaustion is permanent: polling again after `Finished` is a usage
    /// error, which the precondition rules out.
    fn poll_next(&mut self, now: u64) -> (r: StreamPoll<T>)
        requires
            old(self).wf(),
            !old(self).exhausted(),
        ensures
            final(self).wf(),
            r matches StreamPoll::Item(item) ==> {
                &&& final(self).yielded() == old(self).yielded().push(item)
                &&& !final(self).exhausted()
                &&& final(self).remaining() < old(self).remaining()
            },
            !(r is Item) ==> {
                &&& final(self).yielded() == old(self).yielded()
                &&& final(self).remaining() <= old(self).remaining()
            },
            r is Finished <==> final(self).exhausted(),
            final(self).script() == old(self).script(),
            now >= old(self).ready_by() ==> !(r is NotReady),
            r is NotReady ==> final(self).ready_by() == old(self).ready_by(),
            old(self).remaining() == 0 ==> !(r is NotReady),
            final(self).ready_bound() <= old(self).ready_bound(),
    ;
}

} // verus!
