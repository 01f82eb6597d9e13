use futures_stream_ext::Sleep;
use futures_stream_ext::debounce::Delayed;
use futures_stream_ext::interval::{IntervalThrottler, throttle_interval};
use futures_stream_ext::throttle::{ThrottleIntervalConfig, Throttler};
use futures_stream_ext::timer::{VirtualInterval, VirtualSleep};
use futures_stream_ext::IntervalEdge;

#[test]
fn virtual_sleep_elapses_at_its_deadline() {
    let mut sleep = VirtualSleep::sleep(10, 5);
    assert!(!sleep.poll_elapsed(0));
    assert!(!sleep.poll_elapsed(14));
    assert!(sleep.poll_elapsed(15));
    assert!(sleep.poll_elapsed(100));
}

#[test]
fn virtual_interval_skips_missed_ticks() {
    let mut interval = VirtualInterval::new(10);
    // The first tick is immediately pending.
    assert!(interval.poll_tick(0));
    assert!(!interval.poll_tick(5));
    assert!(interval.poll_tick(10));
    // A late poll receives a single tick, not a burst of catch-up ticks,
    // and the cadence resumes from the poll.
    assert!(interval.poll_tick(55));
    assert!(!interval.poll_tick(60));
    assert!(interval.poll_tick(65));
}

#[test]
fn virtual_interval_reset_phases() {
    let mut interval = VirtualInterval::new(10);
    interval.reset(7);
    assert!(!interval.poll_tick(16));
    assert!(interval.poll_tick(17));
    interval.reset_immediately(20);
    assert!(interval.poll_tick(20));
    assert!(!interval.poll_tick(29));
    assert!(interval.poll_tick(30));
}

#[test]
fn throttle_interval_is_empty_for_a_zero_period() {
    assert!(throttle_interval(0).is_none());
    assert!(throttle_interval(1).is_some());
}

#[test]
fn delayed_value_resolves_once_after_its_delay() {
    let mut delayed: Delayed<&str, VirtualSleep> = Delayed::new("payload", 10, 2);
    assert_eq!(None, delayed.poll(2));
    assert_eq!(None, delayed.poll(11));
    assert_eq!(Some("payload"), delayed.poll(12));
}

#[test]
fn interval_throttler_opens_only_while_armed() {
    let mut throttler: IntervalThrottler<u32> = IntervalThrottler::new(ThrottleIntervalConfig {
        period: 10,
        edge: IntervalEdge::Leading,
    });
    // While idle, no opening is ever granted.
    assert!(!throttler.poll_next(0));
    assert!(!throttler.poll_next(100));
    // Arming with a leading edge grants an opening immediately.
    throttler.throttle_pending(100);
    assert!(throttler.poll_next(100));
    // After the opening released an item, the next opening is a period away.
    throttler.throttle_ready(100, Some(&1));
    assert!(!throttler.poll_next(109));
    assert!(throttler.poll_next(110));
    // An opening that released nothing disarms the policy.
    throttler.throttle_ready(110, None);
    assert!(!throttler.poll_next(200));
}

#[test]
fn interval_throttler_trailing_edge_waits_a_full_period() {
    let mut throttler: IntervalThrottler<u32> = IntervalThrottler::new(ThrottleIntervalConfig {
        period: 10,
        edge: IntervalEdge::Trailing,
    });
    throttler.throttle_pending(5);
    assert!(!throttler.poll_next(5));
    assert!(!throttler.poll_next(14));
    assert!(throttler.poll_next(15));
}

#[test]
fn interval_throttler_zero_period_passes_through() {
    for edge in [IntervalEdge::Leading, IntervalEdge::Trailing] {
        let mut throttler: IntervalThrottler<u32> =
            IntervalThrottler::new(ThrottleIntervalConfig { period: 0, edge });
        assert!(!throttler.poll_next(0));
        throttler.throttle_pending(0);
        assert!(throttler.poll_next(0));
        throttler.throttle_ready(0, Some(&1));
        assert!(throttler.poll_next(0));
    }
}
