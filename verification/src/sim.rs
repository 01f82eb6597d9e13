//! Deterministic drivers on the virtual clock.
//!
//! These run a combinator over a scripted upstream until it reports
//! exhaustion or a time horizon is reached, advancing the clock in unit
//! steps and re-polling immediately whenever the combinator emits or asks to
//! be woken again, exactly as a cooperative scheduler would.

use vstd::prelude::*;

use crate::StreamPoll;
use crate::debounce::Debounced;
use crate::interval::IntervalThrottler;
use crate::script::{ScriptedSource, latest_arrival, script_items};
use crate::subseq::{is_subseq, lemma_subseq_of_prefix};
use crate::throttle::{ThrottleIntervalConfig, Throttled};
use crate::timer::VirtualSleep;

verus! {

/// Runs an interval-throttled scripted sequence on the virtual clock.
///
/// Polls the combinator from instant zero onwards until it reports
/// exhaustion or the clock passes `horizon`, and returns the emitted
/// (instant, item) pairs together with whether exhaustion was reported
/// within the horizon.
pub fn run_throttled<T>(
    script: Vec<(u64, T)>,
    config: ThrottleIntervalConfig,
    poll_next_max_ready_count: usize,
    horizon: u64,
) -> (r: (Vec<(u64, T)>, bool))
    requires
        poll_next_max_ready_count >= 1,
        horizon < u64::MAX,
    ensures
        // order preservation: the emitted items are a subsequence of the
        // script items, in original relative order
        is_subseq(script_items(r.0@), script_items(script@)),
        // zero-period pass-through: with the minimum ready-count bound, a
        // finished run has emitted every script item
        r.1 && config.period == 0 && poll_next_max_ready_count == 1 ==> script_items(r.0@)
            == script_items(script@),
        // draining: a finished run of a non-empty script has emitted the
        // last script item last; a finished empty script emitted nothing
        r.1 && script@.len() > 0 ==> r.0@.len() > 0 && r.0@.last().1 == script@.last().1,
        r.1 && script@.len() == 0 ==> r.0@.len() == 0,
        // termination: a horizon one period past the last arrival suffices
        // for the combinator to report exhaustion
        latest_arrival(script@) + config.period <= horizon ==> r.1,
        // emissions carry the instants at which they happened, in order
        forall|i: int, j: int|
            0 <= i <= j < r.0@.len() ==> r.0@[i].0 <= r.0@[j].0 && r.0@[j].0 <= horizon,
{
    let ghost script_seq = script@;
    let source = ScriptedSource::new(script);
    let throttler: IntervalThrottler<T> = IntervalThrottler::new(config);
    let mut th = Throttled::new(source, throttler, poll_next_max_ready_count);
    let mut out: Vec<(u64, T)> = Vec::new();
    let mut now: u64 = 0;
    let mut finished = false;
    proof {
        assert(script_items(out@) =~= th.emitted());
    }
    while now <= horizon
        invariant_except_break
            !finished,
        invariant
            th.wf(),
            th.max_ready_count() == poll_next_max_ready_count,
            th.passes_through() == (config.period == 0),
            th.source_script() == script_items(script_seq),
            script_items(out@) == th.emitted(),
            forall|i: int| 0 <= i < out@.len() ==> #[trigger] out@[i].0 <= now && out@[i].0
                <= horizon,
            forall|i: int, j: int| 0 <= i <= j < out@.len() ==> out@[i].0 <= out@[j].0,
            finished == th.is_finished(),
            config.period == 0 && poll_next_max_ready_count == 1 ==> th.emitted() == th.upstream()
                && !th.has_pending(),
            horizon < u64::MAX,
            th.src_ready_bound() <= latest_arrival(script_seq),
            th.open_delay_bound() == config.period,
            !finished && !th.upstream_exhausted() ==> now <= latest_arrival(script_seq),
            !finished && th.throttler_armed() && !th.upstream_exhausted() ==> th.open_deadline()
                <= config.period + now,
            !finished && th.has_pending() ==> th.open_deadline() <= latest_arrival(script_seq)
                + config.period,
            !finished ==> now <= latest_arrival(script_seq) + config.period,
        ensures
            finished || now > horizon,
        decreases horizon + 1 - now,
    {
        loop
            invariant_except_break
                !finished,
            invariant
                now <= horizon,
                th.wf(),
                th.max_ready_count() == poll_next_max_ready_count,
                th.passes_through() == (config.period == 0),
                th.source_script() == script_items(script_seq),
                script_items(out@) == th.emitted(),
                forall|i: int| 0 <= i < out@.len() ==> #[trigger] out@[i].0 <= now && out@[i].0
                    <= horizon,
                forall|i: int, j: int| 0 <= i <= j < out@.len() ==> out@[i].0 <= out@[j].0,
                finished == th.is_finished(),
                config.period == 0 && poll_next_max_ready_count == 1 ==> th.emitted()
                    == th.upstream() && !th.has_pending(),
                th.src_ready_bound() <= latest_arrival(script_seq),
                th.open_delay_bound() == config.period,
                !finished && !th.upstream_exhausted() ==> now <= latest_arrival(script_seq),
                !finished && th.throttler_armed() && !th.upstream_exhausted() ==> th.open_deadline()
                    <= config.period + now,
                !finished && th.has_pending() ==> th.open_deadline() <= latest_arrival(script_seq)
                    + config.period,
                !finished ==> now <= latest_arrival(script_seq) + config.period,
            ensures
                !finished ==> (!th.upstream_exhausted() ==> now < th.src_ready_by()) && (
                th.upstream_exhausted() ==> th.has_pending() && now < th.open_deadline()),
            decreases th.progress_measure(),
        {
            let (outcome, wake) = th.poll_next(now);
            proof {
                th.lemma_measure_nonneg();
                th.lemma_invariant();
            }
            match outcome {
                StreamPoll::Item(item) => {
                    proof {
                        assert(script_items(out@.push((now, item))) =~= script_items(
                            out@,
                        ).push(item));
                    }
                    out.push((now, item));
                },
                StreamPoll::Finished => {
                    finished = true;
                    break ;
                },
                StreamPoll::NotReady => {
                    if !wake {
                        break ;
                    }
                },
            }
        }
        proof {
            th.lemma_invariant();
        }
        if finished {
            break ;
        }
        now = now + 1;
    }
    proof {
        th.lemma_invariant();
        lemma_subseq_of_prefix(th.emitted(), th.upstream(), th.source_script());
        if out@.len() > 0 {
            assert(out@.last().1 == script_items(out@).last());
        }
        if finished && script_seq.len() > 0 {
            assert(script_items(script_seq).last() == script_seq.last().1);
        }
    }
    (out, finished)
}

/// Runs a debounced scripted sequence on the virtual clock.
///
/// Polls the combinator from instant zero onwards until it reports
/// exhaustion or the clock passes `horizon`, and returns the emitted
/// (instant, item) pairs together with whether exhaustion was reported
/// within the horizon.
pub fn run_debounced<T>(script: Vec<(u64, T)>, delay: u64, horizon: u64) -> (r: (
    Vec<(u64, T)>,
    bool,
))
    requires
        horizon < u64::MAX,
    ensures
        // order preservation: the emitted items are a subsequence of the
        // script items, in original relative order
        is_subseq(script_items(r.0@), script_items(script@)),
        // draining: a finished run of a non-empty script has emitted the
        // last script item last; a finished empty script emitted nothing
        r.1 && script@.len() > 0 ==> r.0@.len() > 0 && r.0@.last().1 == script@.last().1,
        r.1 && script@.len() == 0 ==> r.0@.len() == 0,
        // termination: a horizon one delay past the last arrival suffices
        // for the combinator to report exhaustion
        latest_arrival(script@) + delay <= horizon ==> r.1,
        // emissions carry the instants at which they happened, in order
        forall|i: int, j: int|
            0 <= i <= j < r.0@.len() ==> r.0@[i].0 <= r.0@[j].0 && r.0@[j].0 <= horizon,
{
    let ghost script_seq = script@;
    let source = ScriptedSource::new(script);
    let mut db: Debounced<T, ScriptedSource<T>, VirtualSleep> = Debounced::new(source, delay);
    let mut out: Vec<(u64, T)> = Vec::new();
    let mut now: u64 = 0;
    let mut finished = false;
    proof {
        assert(script_items(out@) =~= db.emitted());
    }
    while now <= horizon
        invariant_except_break
            !finished,
        invariant
            db.wf(),
            db.source_script() == script_items(script_seq),
            script_items(out@) == db.emitted(),
            forall|i: int| 0 <= i < out@.len() ==> #[trigger] out@[i].0 <= now && out@[i].0
                <= horizon,
            forall|i: int, j: int| 0 <= i <= j < out@.len() ==> out@[i].0 <= out@[j].0,
            finished == db.is_finished(),
            horizon < u64::MAX,
            db.src_ready_bound() <= latest_arrival(script_seq),
            db.delay() == delay,
            !finished && !db.upstream_exhausted() ==> now <= latest_arrival(script_seq),
            !finished && db.has_pending() ==> db.pending_deadline() <= latest_arrival(script_seq)
                + delay,
            !finished ==> now <= latest_arrival(script_seq) + delay,
        ensures
            finished || now > horizon,
        decreases horizon + 1 - now,
    {
        loop
            invariant_except_break
                !finished,
            invariant
                now <= horizon,
                db.wf(),
                db.source_script() == script_items(script_seq),
                script_items(out@) == db.emitted(),
                forall|i: int| 0 <= i < out@.len() ==> #[trigger] out@[i].0 <= now && out@[i].0
                    <= horizon,
                forall|i: int, j: int| 0 <= i <= j < out@.len() ==> out@[i].0 <= out@[j].0,
                finished == db.is_finished(),
                db.src_ready_bound() <= latest_arrival(script_seq),
                db.delay() == delay,
                !finished && !db.upstream_exhausted() ==> now <= latest_arrival(script_seq),
                !finished && db.has_pending() ==> db.pending_deadline() <= latest_arrival(script_seq)
                    + delay,
                !finished ==> now <= latest_arrival(script_seq) + delay,
            ensures
                !finished ==> (!db.upstream_exhausted() ==> now < db.src_ready_by()) && (
                db.upstream_exhausted() ==> db.has_pending() && now < db.pending_deadline()),
            decreases db.progress_measure(),
        {
            let outcome = db.poll_next(now);
            proof {
                db.lemma_measure_nonneg();
                db.lemma_invariant();
            }
            match outcome {
                StreamPoll::Item(item) => {
                    proof {
                        assert(script_items(out@.push((now, item))) =~= script_items(
                            out@,
                        ).push(item));
                    }
                    out.push((now, item));
                },
                StreamPoll::Finished => {
                    finished = true;
                    break ;
                },
                StreamPoll::NotReady => {
                    break ;
                },
            }
        }
        proof {
            db.lemma_invariant();
        }
        if finished {
            break ;
        }
        now = now + 1;
    }
    proof {
        db.lemma_invariant();
        lemma_subseq_of_prefix(db.emitted(), db.upstream(), db.source_script());
        if out@.len() > 0 {
            assert(out@.last().1 == script_items(out@).last());
        }
        if finished && script_seq.len() > 0 {
            assert(script_items(script_seq).last() == script_seq.last().1);
        }
    }
    (out, finished)
}

} // verus!
