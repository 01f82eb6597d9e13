//! Throttle combinator and the throttling-policy capability.
//!
//! [`Throttled`] drains its upstream sequence opportunistically, retains only
//! the most recent pending item, and consults a [`Throttler`] policy to
//! decide when that item may be released. After the upstream reports
//! exhaustion it drains the final buffered item before reporting exhaustion
//! itself.

use vstd::prelude::*;

use crate::IntervalEdge;
use crate::subseq::{is_subseq, lemma_subseq_grow, lemma_subseq_push_both};
use crate::{Source, StreamPoll};

verus! {

/// Callbacks for throttling a stream.
///
/// A throttler is the admission policy of [`Throttled`]: it is told when an
/// item starts waiting (`throttle_pending`), it is polled for openings
/// (`poll_next`), and it is told what each opening released
/// (`throttle_ready`), so that it can re-arm or fall idle.
pub trait Throttler<T> {
    /// Well-formedness of the policy's internal state.
    spec fn wf(&self) -> bool;

    /// Whether the policy is armed: an opening is being awaited.
    spec fn armed(&self) -> bool;

    /// Whether this policy grants an opening on every poll while armed,
    /// holding nothing back.
    spec fn passes_through(&self) -> bool;

    /// The instant by which the next opening is guaranteed: polled while
    /// armed at or after it, the policy grants the opening.
    spec fn open_deadline(&self) -> u64;

    /// A bound on how far into the future any single operation may move
    /// the opening deadline; it never changes.
    spec fn open_delay_bound(&self) -> u64;

    /// A new item has been received from the input stream.
    ///
    /// Called on the transition from "nothing buffered" to "one item
    /// buffered", and only then; an armed policy is not re-armed by
    /// additional incoming items. The buffered item may still change until
    /// the next opening.
    fn throttle_pending(&mut self, now: u64)
        requires
            old(self).wf(),
        ensures
            final(self).wf(),
            final(self).armed(),
            final(self).passes_through() == old(self).passes_through(),
            final(self).open_delay_bound() == old(self).open_delay_bound(),
            (old(self).armed() && final(self).open_deadline() == old(self).open_deadline())
                || final(self).open_deadline() <= old(self).open_delay_bound().saturating_add(now),
    ;

    /// An opening has occurred.
    ///
    /// Called exactly once per opening, with the pending item of the
    /// throttled stream if one was ready, or `None` if nothing arrived since
    /// the previous opening. The policy decides whether to stay armed or
    /// fall idle; calling this while the policy is not armed is a usage
    /// error, which the precondition rules out.
    fn throttle_ready(&mut self, now: u64, next_item: Option<&T>)
        requires
            old(self).wf(),
            old(self).armed(),
        ensures
            final(self).wf(),
            final(self).passes_through() == old(self).passes_through(),
            final(self).open_delay_bound() == old(self).open_delay_bound(),
            final(self).open_deadline() == old(self).open_deadline(),
    ;

    /// Polls for an opening at the instant `now`; `true` means the buffered
    /// item may be emitted now. While not armed, an opening never occurs.
    fn poll_next(&mut self, now: u64) -> (open: bool)
        requires
            old(self).wf(),
        ensures
            final(self).wf(),
            final(self).armed() == old(self).armed(),
            final(self).passes_through() == old(self).passes_through(),
            open ==> old(self).armed(),
            old(self).passes_through() && old(self).armed() ==> open,
            final(self).open_delay_bound() == old(self).open_delay_bound(),
            old(self).armed() && now >= old(self).open_deadline() ==> open,
            !open ==> final(self).open_deadline() == old(self).open_deadline(),
            open ==> final(self).open_deadline() <= old(self).open_delay_bound().saturating_add(
                now,
            ),
    ;
}

/// Configuration of an interval throttler.
#[derive(Debug, Clone, Copy, PartialEq, Eq, Hash)]
pub struct ThrottleIntervalConfig {
    /// Throttling period
    ///
    /// The minimum interval between subsequent items that limits the
    /// maximum frequency of the output stream. A period of zero disables
    /// throttling entirely: every pending item is released immediately.
    pub period: u64,

    /// Interval edge trigger
    ///
    /// Controls whether the pending item of the stream is yielded
    /// immediately or after the interval has elapsed.
    pub edge: IntervalEdge,
}

/// Internal state.
#[derive(Debug, Clone, Copy)]
enum State {
    Streaming,
    Finishing,
    Finished,
}

/// Throttled stream
///
/// Wraps an upstream [`Source`] and a [`Throttler`] policy. Emitted items
/// are a subsequence of the upstream items in arrival order; between two
/// emissions all intermediate arrivals are dropped except the most recent;
/// the very last upstream item is always emitted (possibly held for one more
/// opening) before exhaustion is reported.
pub struct Throttled<T, S: Source<T>, Th: Throttler<T>> {
    stream: S,
    throttler: Th,
    poll_next_max_ready_count: usize,
    state: State,
    pending: Option<T>,
    emitted: Ghost<Seq<T>>,
}

impl<T, S: Source<T>, Th: Throttler<T>> Throttled<T, S, Th> {
    /// All items emitted so far, in emission order.
    pub closed spec fn emitted(&self) -> Seq<T> {
        self.emitted@
    }

    /// All items the upstream sequence has yielded so far.
    pub closed spec fn upstream(&self) -> Seq<T> {
        self.stream.yielded()
    }

    /// Whether the upstream sequence has reported exhaustion.
    pub closed spec fn upstream_exhausted(&self) -> bool {
        self.stream.exhausted()
    }

    /// Whether exhaustion has been reported downstream (terminal).
    pub closed spec fn is_finished(&self) -> bool {
        self.state is Finished
    }

    /// Whether an upstream item is buffered, awaiting an opening.
    pub closed spec fn has_pending(&self) -> bool {
        self.pending is Some
    }

    /// The configured bound on upstream polls per `poll_next` call.
    pub closed spec fn max_ready_count(&self) -> usize {
        self.poll_next_max_ready_count
    }

    /// Whether the admission policy releases every item immediately.
    pub closed spec fn passes_through(&self) -> bool {
        self.throttler.passes_through()
    }

    /// The complete item sequence of the wrapped upstream producer.
    pub closed spec fn source_script(&self) -> Seq<T> {
        self.stream.script()
    }

    /// The upstream producer's readiness deadline.
    pub closed spec fn src_ready_by(&self) -> u64 {
        self.stream.ready_by()
    }

    /// The lifetime bound on the upstream readiness deadline.
    pub closed spec fn src_ready_bound(&self) -> u64 {
        self.stream.ready_bound()
    }

    /// An upper bound on the number of items the upstream can still yield.
    pub closed spec fn src_remaining(&self) -> nat {
        self.stream.remaining()
    }

    /// Whether the admission policy is armed.
    pub closed spec fn throttler_armed(&self) -> bool {
        self.throttler.armed()
    }

    /// The admission policy's opening deadline.
    pub closed spec fn open_deadline(&self) -> u64 {
        self.throttler.open_deadline()
    }

    /// The admission policy's bound on re-setting its opening deadline.
    pub closed spec fn open_delay_bound(&self) -> u64 {
        self.throttler.open_delay_bound()
    }

    pub closed spec fn wf(&self) -> bool {
        &&& self.stream.wf()
        &&& self.throttler.wf()
        &&& self.poll_next_max_ready_count >= 1
        &&& (self.state is Streaming <==> !self.stream.exhausted())
        &&& (self.pending matches Some(p) ==> {
            &&& self.stream.yielded().len() > 0
            &&& p == self.stream.yielded().last()
            &&& is_subseq(self.emitted@, self.stream.yielded().drop_last())
            &&& self.throttler.armed()
        })
        &&& (self.pending is None ==> {
            &&& is_subseq(self.emitted@, self.stream.yielded())
            &&& (self.stream.yielded().len() == 0 || (self.emitted@.len() > 0
                && self.emitted@.last() == self.stream.yielded().last()))
        })
        &&& (self.state is Finished ==> self.pending is None)
    }

    /// Measure of the work a driver can still be asked to do at the current
    /// instant; every poll that emits or requests an immediate re-poll
    /// strictly decreases it, so polling loops at a fixed instant terminate.
    pub closed spec fn progress_measure(&self) -> int {
        2 * (self.stream.remaining() as int) + (if self.pending is Some {
            1int
        } else {
            0int
        }) + (match self.state {
            State::Streaming => 2int,
            State::Finishing => 1int,
            State::Finished => 0int,
        })
    }

    /// Wraps a fresh upstream sequence with a throttling policy.
    ///
    /// `poll_next_max_ready_count` bounds how many ready items are polled in
    /// a row from the input stream during one `poll_next` call before the
    /// throttler is consulted, so that input streams which are always ready
    /// cannot be polled forever; one is the safe default, greater values
    /// reduce the number of throttler polls on bursty streams.
    pub fn new(stream: S, throttler: Th, poll_next_max_ready_count: usize) -> (r: Self)
        requires
            stream.wf(),
            !stream.exhausted(),
            stream.yielded() == Seq::<T>::empty(),
            throttler.wf(),
            poll_next_max_ready_count >= 1,
        ensures
            r.wf(),
            r.emitted() == Seq::<T>::empty(),
            r.upstream() == stream.yielded(),
            !r.upstream_exhausted(),
            !r.is_finished(),
            !r.has_pending(),
            r.max_ready_count() == poll_next_max_ready_count,
            r.passes_through() == throttler.passes_through(),
            r.source_script() == stream.script(),
            r.src_ready_bound() == stream.ready_bound(),
            r.src_remaining() == stream.remaining(),
            r.open_delay_bound() == throttler.open_delay_bound(),
            r.throttler_armed() == throttler.armed(),
    {
        Throttled {
            stream,
            throttler,
            poll_next_max_ready_count,
            state: State::Streaming,
            pending: None,
            emitted: Ghost(Seq::empty()),
        }
    }

    /// Advances the state machine by one poll at the instant `now`.
    ///
    /// Returns the poll outcome and a self-wake flag: `true` means the call
    /// could not finish its work synchronously and the caller must poll
    /// again at the same instant without waiting for an external event.
    ///
    /// Polling after exhaustion has been reported is a usage error, which
    /// the precondition rules out.
    pub fn poll_next(&mut self, now: u64) -> (r: (StreamPoll<T>, bool))
        requires
            old(self).wf(),
            !old(self).is_finished(),
        ensures
            final(self).wf(),
            final(self).max_ready_count() == old(self).max_ready_count(),
            final(self).passes_through() == old(self).passes_through(),
            // the upstream history only grows
            old(self).upstream().len() <= final(self).upstream().len(),
            old(self).upstream() == final(self).upstream().take(
                old(self).upstream().len() as int,
            ),
            old(self).upstream_exhausted() ==> final(self).upstream_exhausted(),
            final(self).source_script() == old(self).source_script(),
            // an emission appends exactly the returned item, which is the
            // most recent upstream item (coalescing)
            r.0 matches StreamPoll::Item(item) ==> {
                &&& final(self).emitted() == old(self).emitted().push(item)
                &&& final(self).upstream().len() > 0
                &&& item == final(self).upstream().last()
                &&& !final(self).has_pending()
            },
            !(r.0 is Item) ==> final(self).emitted() == old(self).emitted(),
            // exhaustion is reported exactly when the terminal state is
            // reached, and only once the final buffered item is drained
            r.0 is Finished <==> final(self).is_finished(),
            final(self).is_finished() ==> final(self).upstream_exhausted()
                && !final(self).has_pending(),
            old(self).upstream_exhausted() && !old(self).has_pending() ==> r.0 is Finished,
            // after the final item is drained, the self-wake guarantees the
            // immediately following poll, which reports exhaustion
            r.0 is Item && final(self).upstream_exhausted() ==> r.1,
            // driver progress: emissions and self-wakes strictly decrease
            // the measure; every poll is non-increasing
            r.0 is Item || r.1 ==> final(self).progress_measure() < old(self).progress_measure(),
            final(self).progress_measure() <= old(self).progress_measure(),
            // a pass-through policy with a ready-count bound of one emits
            // every upstream item: the combinator is the identity
            old(self).passes_through() && old(self).max_ready_count() == 1 && old(self).emitted()
                == old(self).upstream() && !old(self).has_pending() ==> {
                &&& final(self).emitted() == final(self).upstream()
                &&& !final(self).has_pending()
            },
            // a pass-through policy never leaves an item buffered, and a
            // buffered item under it is emitted by the very next poll
            old(self).has_pending() && old(self).passes_through() ==> r.0 is Item,
            old(self).passes_through() ==> !final(self).has_pending(),
            // the drain bound: one poll takes at most the configured number
            // of upstream items; the wake flag is set exactly when work was
            // left undone, either because the bound was hit while the
            // upstream was still ready, or to perform the final transition
            // after draining the last item
            final(self).upstream().len() <= old(self).upstream().len()
                + old(self).max_ready_count(),
            r.1 ==> (r.0 is Item && final(self).upstream_exhausted())
                || final(self).upstream().len() == old(self).upstream().len()
                + old(self).max_ready_count(),
            final(self).upstream().len() == old(self).upstream().len()
                + old(self).max_ready_count() ==> r.1,
            // progress forcing: a quiescent poll can only mean that the
            // upstream is not ready yet or that the opening is still ahead
            r.0 is NotReady && !r.1 && !final(self).upstream_exhausted()
                ==> now < final(self).src_ready_by(),
            r.0 is NotReady && final(self).has_pending() ==> now < final(self).open_deadline(),
            r.0 is NotReady && old(self).has_pending()
                ==> final(self).open_deadline() == old(self).open_deadline(),
            // once nothing is left to yield or emit, exhaustion is reported
            final(self).upstream_exhausted() && !final(self).has_pending() && !(r.0 is Item)
                ==> r.0 is Finished,
            !old(self).upstream_exhausted() && old(self).src_remaining() == 0
                && !old(self).has_pending() ==> r.0 is Finished,
            // bookkeeping for callers that track deadlines over time
            final(self).src_ready_bound() <= old(self).src_ready_bound(),
            final(self).open_delay_bound() == old(self).open_delay_bound(),
            final(self).has_pending() ==> final(self).throttler_armed(),
            final(self).throttler_armed() ==> (old(self).throttler_armed()
                && final(self).open_deadline() == old(self).open_deadline())
                || final(self).open_deadline()
                <= final(self).open_delay_bound().saturating_add(now),
            old(self).upstream_exhausted() ==> final(self).upstream() == old(self).upstream(),
            final(self).has_pending() && !old(self).has_pending() ==> final(self).upstream().len()
                > old(self).upstream().len(),
    {
        let ghost pre = *self;
        let mut wake = false;
        if matches!(self.state, State::Streaming) {
            // Poll the inner stream while it yields items: only the most
            // recent ready item is retained.
            let mut ready_count: usize = 0;
            loop
                invariant_except_break
                    ready_count < self.poll_next_max_ready_count,
                invariant
                    pre.wf(),
                    pre.state is Streaming,
                    self.poll_next_max_ready_count == pre.poll_next_max_ready_count,
                    ready_count <= self.poll_next_max_ready_count,
                    self.emitted@ == pre.emitted@,
                    self.stream.wf(),
                    self.throttler.wf(),
                    self.throttler.passes_through() == pre.throttler.passes_through(),
                    self.stream.script() == pre.stream.script(),
                    self.stream.yielded().len() == pre.stream.yielded().len() + ready_count,
                    pre.stream.yielded() == self.stream.yielded().take(
                        pre.stream.yielded().len() as int,
                    ),
                    self.stream.remaining() + ready_count <= pre.stream.remaining(),
                    (self.state is Streaming && !self.stream.exhausted()) || (self.state
                        is Finishing && self.stream.exhausted()),
                    self.pending matches Some(p) ==> {
                        &&& self.stream.yielded().len() > 0
                        &&& p == self.stream.yielded().last()
                        &&& is_subseq(self.emitted@, self.stream.yielded().drop_last())
                        &&& self.throttler.armed()
                    },
                    self.pending is None ==> {
                        &&& is_subseq(self.emitted@, self.stream.yielded())
                        &&& (self.stream.yielded().len() == 0 || (self.emitted@.len() > 0
                            && self.emitted@.last() == self.stream.yielded().last()))
                    },
                    ready_count == 0 ==> self.pending == pre.pending && self.throttler
                        == pre.throttler && self.stream.yielded() == pre.stream.yielded(),
                    ready_count > 0 ==> self.pending is Some,
                    wake ==> ready_count >= self.poll_next_max_ready_count && self.state
                        is Streaming,
                    ready_count >= self.poll_next_max_ready_count ==> wake,
                    self.stream.ready_bound() <= pre.stream.ready_bound(),
                    self.throttler.open_delay_bound() == pre.throttler.open_delay_bound(),
                    pre.pending is Some ==> self.throttler == pre.throttler,
                    self.throttler.armed() ==> (pre.throttler.armed()
                        && self.throttler.open_deadline() == pre.throttler.open_deadline())
                        || self.throttler.open_deadline()
                        <= self.throttler.open_delay_bound().saturating_add(now),
                ensures
                    self.state is Streaming && !wake ==> now < self.stream.ready_by(),
                    pre.stream.remaining() == 0 ==> self.state is Finishing,
                decreases self.poll_next_max_ready_count - ready_count,
            {
                if !matches!(self.state, State::Streaming) {
                    break ;
                }
                let ghost yielded_before = self.stream.yielded();
                match self.stream.poll_next(now) {
                    StreamPoll::Item(item) => {
                        proof {
                            assert(self.stream.yielded().drop_last() =~= yielded_before);
                            if pre.stream.yielded() == yielded_before.take(
                                pre.stream.yielded().len() as int,
                            ) {
                                assert(self.stream.yielded().take(pre.stream.yielded().len() as int)
                                    =~= yielded_before.take(pre.stream.yielded().len() as int));
                            }
                            if self.pending is Some {
                                lemma_subseq_grow(
                                    self.emitted@,
                                    yielded_before.drop_last(),
                                    yielded_before.last(),
                                );
                                assert(yielded_before.drop_last().push(yielded_before.last())
                                    =~= yielded_before);
                            }
                        }
                        if self.pending.is_none() {
                            self.throttler.throttle_pending(now);
                        }
                        self.pending = Some(item);
                        ready_count = ready_count + 1;
                        if ready_count >= self.poll_next_max_ready_count {
                            // Stop polling the inner stream to prevent
                            // endless loops for streams that are always
                            // ready; the self-wake ensures that draining
                            // continues right after the throttler was
                            // consulted.
                            wake = true;
                            break ;
                        }
                    },
                    StreamPoll::Finished => {
                        self.state = State::Finishing;
                        break ;
                    },
                    StreamPoll::NotReady => {
                        break ;
                    },
                }
            }
        }
        // Poll the throttler.
        match self.state {
            State::Streaming => {
                let open = self.throttler.poll_next(now);
                if !open {
                    return (StreamPoll::NotReady, wake);
                }
                let next_item = self.pending.take();
                self.throttler.throttle_ready(now, next_item.as_ref());
                match next_item {
                    Some(item) => {
                        proof {
                            lemma_subseq_push_both(
                                self.emitted@,
                                self.stream.yielded().drop_last(),
                                item,
                            );
                            assert(self.stream.yielded().drop_last().push(
                                self.stream.yielded().last(),
                            ) =~= self.stream.yielded());
                        }
                        self.emitted = Ghost(self.emitted@.push(item));
                        (StreamPoll::Item(item), wake)
                    },
                    None => (StreamPoll::NotReady, wake),
                }
            },
            State::Finishing => {
                if self.pending.is_some() {
                    let open = self.throttler.poll_next(now);
                    if !open {
                        return (StreamPoll::NotReady, wake);
                    }
                    let last_item = self.pending.take();
                    match last_item {
                        Some(item) => {
                            proof {
                                lemma_subseq_push_both(
                                    self.emitted@,
                                    self.stream.yielded().drop_last(),
                                    item,
                                );
                                assert(self.stream.yielded().drop_last().push(
                                    self.stream.yielded().last(),
                                ) =~= self.stream.yielded());
                            }
                            self.emitted = Ghost(self.emitted@.push(item));
                            // The self-wake performs the final transition to
                            // the terminal state without an external event.
                            (StreamPoll::Item(item), true)
                        },
                        None => {
                            proof {
                                assert(false);
                            }
                            (StreamPoll::NotReady, false)
                        },
                    }
                } else {
                    // The final state transition.
                    self.state = State::Finished;
                    (StreamPoll::Finished, wake)
                }
            },
            State::Finished => {
                proof {
                    assert(false);
                }
                (StreamPoll::NotReady, false)
            },
        }
    }

    /// Order preservation and draining, as consequences of well-formedness:
    /// the emitted sequence is a subsequence of the upstream sequence in
    /// original relative order; the upstream sequence itself is a prefix of
    /// the producer's complete item sequence, all of it once exhausted; and
    /// while nothing is buffered, the most recent upstream item (if any) was
    /// the most recent emission, so it is never silently dropped.
    pub proof fn lemma_invariant(&self)
        requires
            self.wf(),
        ensures
            is_subseq(self.emitted(), self.upstream()),
            self.upstream().len() <= self.source_script().len(),
            self.upstream() == self.source_script().take(self.upstream().len() as int),
            self.upstream_exhausted() ==> self.upstream() == self.source_script(),
            !self.has_pending() ==> (self.upstream().len() == 0 || (self.emitted().len() > 0
                && self.emitted().last() == self.upstream().last())),
            self.is_finished() ==> self.upstream_exhausted() && !self.has_pending(),
            !self.upstream_exhausted() ==> self.src_ready_by() <= self.src_ready_bound(),
            self.has_pending() ==> self.throttler_armed(),
    {
        self.stream.wf_script_facts();
        if self.pending is Some {
            lemma_subseq_grow(
                self.emitted@,
                self.stream.yielded().drop_last(),
                self.stream.yielded().last(),
            );
            assert(self.stream.yielded().drop_last().push(self.stream.yielded().last())
                =~= self.stream.yielded());
        }
    }

    /// The progress measure never becomes negative, so polling loops may
    /// use it as a termination measure.
    pub proof fn lemma_measure_nonneg(&self)
        ensures
            self.progress_measure() >= 0,
    {
    }
}

} // verus!
