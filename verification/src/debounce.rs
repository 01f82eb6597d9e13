//! Debounce combinator and the delayed-value it buffers.
//!
//! [`Debounced`] retains only the most recent upstream item, wrapped in a
//! fresh [`Delayed`] each time a new item supersedes the previous one
//! (replacing the previous delay cancels it), and emits it once its delay
//! elapses undisturbed. Once the upstream reports exhaustion it is never
//! polled again, and exhaustion is reported downstream as soon as nothing is
//! left to emit.

use vstd::prelude::*;

use crate::subseq::{is_subseq, lemma_subseq_grow, lemma_subseq_push_both};
use crate::{Sleep, Source, StreamPoll};

verus! {

/// One value behind a one-shot delay.
///
/// Resolves to the value once the delay elapses; polling it again after it
/// resolved is a usage error, which the precondition rules out.
pub struct Delayed<T, S: Sleep> {
    output: Option<T>,
    sleep: S,
}

impl<T, S: Sleep> Delayed<T, S> {
    /// The stored value, until it has been taken.
    pub closed spec fn stored(&self) -> Option<T> {
        self.output
    }

    /// The instant from which on polling resolves.
    pub closed spec fn deadline(&self) -> u64 {
        self.sleep.deadline()
    }

    /// Wraps `output` in a delay of `delay`, measured from the instant
    /// `now`.
    pub fn new(output: T, delay: u64, now: u64) -> (r: Self)
        ensures
            r.stored() == Some(output),
            r.deadline() == delay.saturating_add(now),
    {
        Delayed { output: Some(output), sleep: S::sleep(delay, now) }
    }

    /// Polls the delayed value at the instant `now`: the stored value once
    /// the delay has elapsed, nothing before that.
    pub fn poll(&mut self, now: u64) -> (r: Option<T>)
        requires
            old(self).stored() is Some,
        ensures
            final(self).deadline() == old(self).deadline(),
            now >= old(self).deadline() ==> r == old(self).stored() && final(self).stored()
                is None,
            now < old(self).deadline() ==> r is None && final(self).stored() == old(self).stored(),
    {
        if self.sleep.poll_elapsed(now) {
            self.output.take()
        } else {
            None
        }
    }
}

/// Debounced stream
///
/// Wraps an upstream [`Source`]; every emitted item is the most recent
/// upstream item, released only once its delay has elapsed without a newer
/// arrival superseding it.
pub struct Debounced<T, St: Source<T>, S: Sleep> {
    stream: Option<St>,
    delay: u64,
    pending: Option<Delayed<T, S>>,
    done: bool,
    history: Ghost<Seq<T>>,
    full: Ghost<Seq<T>>,
    emitted: Ghost<Seq<T>>,
}

impl<T, St: Source<T>, S: Sleep> Debounced<T, St, S> {
    /// All items emitted so far, in emission order.
    pub closed spec fn emitted(&self) -> Seq<T> {
        self.emitted@
    }

    /// All items the upstream sequence has yielded so far.
    pub closed spec fn upstream(&self) -> Seq<T> {
        self.history@
    }

    /// Whether the upstream sequence has reported exhaustion.
    pub closed spec fn upstream_exhausted(&self) -> bool {
        self.stream is None
    }

    /// The complete item sequence of the wrapped upstream producer.
    pub closed spec fn source_script(&self) -> Seq<T> {
        self.full@
    }

    /// The upstream producer's readiness deadline.
    pub closed spec fn src_ready_by(&self) -> u64 {
        self.stream->0.ready_by()
    }

    /// The lifetime bound on the upstream readiness deadline.
    pub closed spec fn src_ready_bound(&self) -> u64 {
        match self.stream {
            Some(s) => s.ready_bound(),
            None => 0,
        }
    }

    /// An upper bound on the number of items the upstream can still yield.
    pub closed spec fn src_remaining(&self) -> nat {
        match self.stream {
            Some(s) => s.remaining(),
            None => 0,
        }
    }

    /// Whether exhaustion has been reported downstream (terminal).
    pub closed spec fn is_finished(&self) -> bool {
        self.done
    }

    /// Whether an upstream item is buffered, awaiting its delay.
    pub closed spec fn has_pending(&self) -> bool {
        self.pending is Some
    }

    /// The configured debounce delay.
    pub closed spec fn delay(&self) -> u64 {
        self.delay
    }

    /// The instant at which the buffered item's delay elapses; meaningful
    /// only while an item is buffered.
    pub closed spec fn pending_deadline(&self) -> u64 {
        self.pending->0.deadline()
    }

    pub closed spec fn wf(&self) -> bool {
        &&& (self.stream matches Some(s) ==> {
            &&& s.wf()
            &&& !s.exhausted()
            &&& s.yielded() == self.history@
            &&& s.script() == self.full@
        })
        &&& (self.stream is None ==> self.history@ == self.full@)
        &&& self.history@.len() <= self.full@.len()
        &&& self.history@ == self.full@.take(self.history@.len() as int)
        &&& (self.pending matches Some(d) ==> {
            &&& d.stored() is Some
            &&& self.history@.len() > 0
            &&& d.stored() == Some(self.history@.last())
            &&& is_subseq(self.emitted@, self.history@.drop_last())
        })
        &&& (self.pending is None ==> {
            &&& is_subseq(self.emitted@, self.history@)
            &&& (self.history@.len() == 0 || (self.emitted@.len() > 0 && self.emitted@.last()
                == self.history@.last()))
        })
        &&& (self.done ==> self.stream is None && self.pending is None)
    }

    /// Measure of the work a driver can still be asked to do at the current
    /// instant; every poll that emits strictly decreases it, so polling
    /// loops at a fixed instant terminate.
    pub closed spec fn progress_measure(&self) -> int {
        2 * (match self.stream {
            Some(s) => s.remaining() as int,
            None => 0int,
        }) + (if self.pending is Some {
            1int
        } else {
            0int
        }) + (if self.done {
            0int
        } else {
            1int
        })
    }

    /// Wraps a fresh upstream sequence with a debounce delay.
    pub fn new(stream: St, delay: u64) -> (r: Self)
        requires
            stream.wf(),
            !stream.exhausted(),
            stream.yielded() == Seq::<T>::empty(),
        ensures
            r.wf(),
            r.emitted() == Seq::<T>::empty(),
            r.upstream() == stream.yielded(),
            r.source_script() == stream.script(),
            !r.upstream_exhausted(),
            !r.is_finished(),
            !r.has_pending(),
            r.delay() == delay,
            r.src_ready_bound() == stream.ready_bound(),
            r.src_remaining() == stream.remaining(),
    {
        proof {
            stream.wf_script_facts();
        }
        Debounced {
            history: Ghost(stream.yielded()),
            full: Ghost(stream.script()),
            stream: Some(stream),
            delay,
            pending: None,
            done: false,
            emitted: Ghost(Seq::empty()),
        }
    }

    /// Advances the state machine by one poll at the instant `now`.
    ///
    /// Polling after exhaustion has been reported is a usage error, which
    /// the precondition rules out.
    pub fn poll_next(&mut self, now: u64) -> (r: StreamPoll<T>)
        requires
            old(self).wf(),
            !old(self).is_finished(),
        ensures
            final(self).wf(),
            final(self).delay() == old(self).delay(),
            final(self).source_script() == old(self).source_script(),
            // the upstream history only grows
            old(self).upstream().len() <= final(self).upstream().len(),
            old(self).upstream() == final(self).upstream().take(
                old(self).upstream().len() as int,
            ),
            old(self).upstream_exhausted() ==> final(self).upstream_exhausted(),
            // an emission appends exactly the returned item, which is the
            // most recent upstream item (coalescing)
            r matches StreamPoll::Item(item) ==> {
                &&& final(self).emitted() == old(self).emitted().push(item)
                &&& final(self).upstream().len() > 0
                &&& item == final(self).upstream().last()
                &&& !final(self).has_pending()
            },
            !(r is Item) ==> final(self).emitted() == old(self).emitted(),
            // exhaustion is reported exactly when the terminal state is
            // reached, and only once nothing is left to emit
            r is Finished <==> final(self).is_finished(),
            final(self).is_finished() ==> final(self).upstream_exhausted()
                && !final(self).has_pending(),
            old(self).upstream_exhausted() && !old(self).has_pending() ==> r is Finished,
            // debounce timing: an undisturbed buffered item is emitted
            // exactly once its delay has elapsed
            old(self).has_pending() && final(self).upstream() == old(self).upstream() ==> (r
                is Item <==> now >= old(self).pending_deadline()),
            final(self).has_pending() && final(self).upstream() == old(self).upstream()
                ==> final(self).pending_deadline() == old(self).pending_deadline()
                && old(self).has_pending(),
            // a new arrival supersedes the buffered item and re-starts the
            // delay from the instant of the poll that drained it
            final(self).has_pending() && final(self).upstream().len()
                > old(self).upstream().len() ==> final(self).pending_deadline()
                == old(self).delay().saturating_add(now),
            // progress forcing: a quiescent poll can only mean that the
            // upstream is not ready yet or that the delay is still running
            r is NotReady && !final(self).upstream_exhausted() ==> now < final(self).src_ready_by(),
            r is NotReady && final(self).has_pending() ==> now < final(self).pending_deadline(),
            // once nothing is left to yield or emit, exhaustion is reported
            final(self).upstream_exhausted() && !final(self).has_pending() && !(r is Item)
                ==> r is Finished,
            !old(self).upstream_exhausted() && old(self).src_remaining() == 0
                && !old(self).has_pending() ==> r is Finished,
            // bookkeeping for callers that track deadlines over time
            final(self).src_ready_bound() <= old(self).src_ready_bound(),
            old(self).upstream_exhausted() ==> final(self).upstream() == old(self).upstream(),
            final(self).upstream().len() == old(self).upstream().len() ==> final(self).upstream()
                == old(self).upstream(),
            // driver progress
            r is Item ==> final(self).progress_measure() < old(self).progress_measure(),
            final(self).progress_measure() <= old(self).progress_measure(),
    {
        let ghost pre = *self;
        let ghost pre_remaining: nat = if pre.stream is Some {
            pre.stream->0.remaining()
        } else {
            0
        };
        let mut last_item: Option<T> = None;
        proof {
            assert(pre.history@ =~= self.history@.take(pre.history@.len() as int));
        }
        if self.stream.is_some() {
            loop
                invariant_except_break
                    self.stream is Some,
                invariant
                    pre.wf(),
                    pre.stream is Some,
                    self.delay == pre.delay,
                    self.done == pre.done,
                    self.pending == pre.pending,
                    self.emitted@ == pre.emitted@,
                    self.full@ == pre.full@,
                    self.history@.len() >= pre.history@.len(),
                    pre.history@ == self.history@.take(pre.history@.len() as int),
                    self.history@.len() <= self.full@.len(),
                    self.history@ == self.full@.take(self.history@.len() as int),
                    self.stream matches Some(s) ==> {
                        &&& s.wf()
                        &&& !s.exhausted()
                        &&& s.yielded() == self.history@
                        &&& s.script() == self.full@
                    },
                    self.stream is None ==> self.history@ == self.full@,
                    match self.stream {
                        Some(s) => s.remaining() <= pre_remaining,
                        None => true,
                    },
                    last_item is None ==> self.history@ == pre.history@,
                    last_item matches Some(x) ==> {
                        &&& self.history@.len() > pre.history@.len()
                        &&& self.history@.len() > 0
                        &&& x == self.history@.last()
                        &&& is_subseq(self.emitted@, self.history@.drop_last())
                        &&& pre_remaining > 0
                        &&& (match self.stream {
                            Some(s) => s.remaining() < pre_remaining,
                            None => true,
                        })
                    },
                    match self.stream {
                        Some(s) => s.ready_bound() <= (match pre.stream {
                            Some(p) => p.ready_bound(),
                            None => 0,
                        }),
                        None => true,
                    },
                ensures
                    self.stream matches Some(s2) ==> now < s2.ready_by(),
                    pre_remaining == 0 ==> self.stream is None && last_item is None,
                decreases (match self.stream {
                    Some(s) => s.remaining() + 1,
                    None => 0,
                }),
            {
                let outcome = match &mut self.stream {
                    Some(s) => s.poll_next(now),
                    None => {
                        proof {
                            assert(false);
                        }
                        StreamPoll::NotReady
                    },
                };
                match outcome {
                    StreamPoll::Item(item) => {
                        proof {
                            let s = self.stream->0;
                            s.wf_script_facts();
                            assert(s.yielded().drop_last() =~= self.history@);
                            if last_item is Some || self.pending is Some {
                                lemma_subseq_grow(
                                    self.emitted@,
                                    self.history@.drop_last(),
                                    self.history@.last(),
                                );
                                assert(self.history@.drop_last().push(self.history@.last())
                                    =~= self.history@);
                            }
                            if pre.history@ == self.history@.take(pre.history@.len() as int) {
                                assert(s.yielded().take(pre.history@.len() as int)
                                    =~= self.history@.take(pre.history@.len() as int));
                            }
                        }
                        self.history = Ghost(self.history@.push(item));
                        last_item = Some(item);
                    },
                    StreamPoll::Finished => {
                        proof {
                            let s = self.stream->0;
                            s.wf_script_facts();
                        }
                        // The stream has finished and must not be polled
                        // again.
                        self.stream = None;
                        break ;
                    },
                    StreamPoll::NotReady => {
                        break ;
                    },
                }
            }
        }
        // Replace pending with the delayed last item from the stream; the
        // previously pending delay is canceled by being replaced.
        match last_item {
            Some(item) => {
                self.pending = Some(Delayed::new(item, self.delay, now));
            },
            None => {},
        }
        if self.stream.is_none() && self.pending.is_none() {
            // Finished: the upstream is exhausted and no item is pending.
            self.done = true;
            return StreamPoll::Finished;
        }
        proof {
            assert(self.progress_measure() <= pre.progress_measure());
        }
        let outcome = match &mut self.pending {
            None => None,
            Some(delayed) => delayed.poll(now),
        };
        match outcome {
            Some(item) => {
                proof {
                    lemma_subseq_push_both(self.emitted@, self.history@.drop_last(), item);
                    assert(self.history@.drop_last().push(self.history@.last())
                        =~= self.history@);
                }
                self.emitted = Ghost(self.emitted@.push(item));
                // The delayed value must not be polled again after it
                // resolved.
                self.pending = None;
                StreamPoll::Item(item)
            },
            None => StreamPoll::NotReady,
        }
    }

    /// Order preservation and draining, as consequences of well-formedness:
    /// the emitted sequence is a subsequence of the upstream sequence in
    /// original relative order; the upstream sequence itself is a prefix of
    /// the producer's complete item sequence, all of it once exhausted; and
    /// while nothing is buffered, the most recent upstream item (if any) was
    /// the most recent emission, so it is never silently dropped.
    pub proof fn lemma_invariant(&self)
        requires
            self.wf(),
        ensures
            is_subseq(self.emitted(), self.upstream()),
            self.upstream().len() <= self.source_script().len(),
            self.upstream() == self.source_script().take(self.upstream().len() as int),
            self.upstream_exhausted() ==> self.upstream() == self.source_script(),
            !self.has_pending() ==> (self.upstream().len() == 0 || (self.emitted().len() > 0
                && self.emitted().last() == self.upstream().last())),
            self.is_finished() ==> self.upstream_exhausted() && !self.has_pending(),
            !self.upstream_exhausted() ==> self.src_ready_by() <= self.src_ready_bound(),
    {
        if self.stream is Some {
            self.stream->0.wf_script_facts();
        }
        if self.pending is Some {
            lemma_subseq_grow(
                self.emitted@,
                self.history@.drop_last(),
                self.history@.last(),
            );
            assert(self.history@.drop_last().push(self.history@.last()) =~= self.history@);
        }
    }

    /// The progress measure never becomes negative, so polling loops may
    /// use it as a termination measure.
    pub proof fn lemma_measure_nonneg(&self)
        ensures
            self.progress_measure() >= 0,
    {
    }
}

} // verus!
