use futures_stream_ext::IntervalEdge;
use futures_stream_ext::sim::run_throttled;
use futures_stream_ext::throttle::ThrottleIntervalConfig;

/// Arrival pattern of the original scenarios: the first item arrives
/// immediately, all subsequent items alternate between the two delays.
fn alternating_delay_script(
    first_delay: u64,
    second_delay: u64,
    num_items: usize,
) -> Vec<(u64, usize)> {
    (0..num_items)
        .map(|i| {
            let at = first_delay * ((i as u64 + 1) / 2) + second_delay * (i as u64 / 2);
            (at, i)
        })
        .collect()
}

fn run_alternating_delay_script(
    config: ThrottleIntervalConfig,
    first_delay: u64,
    second_delay: u64,
    num_items: usize,
) -> Vec<(u64, usize)> {
    let script = alternating_delay_script(first_delay, second_delay, num_items);
    let (out, finished) = run_throttled(script, config, 1, 1_000);
    assert!(finished);
    out
}

#[test]
fn should_pass_through_an_input_stream_that_is_always_ready_with_an_empty_period() {
    let first_delay = 0;
    let second_delay = 0;
    let period = 0;
    let expected_items = [
        (0, 0),
        (0, 1),
        (0, 2),
        (0, 3),
        (0, 4),
        (0, 5),
        (0, 6),
        (0, 7),
        (0, 8),
        (0, 9),
    ];
    for config in [
        ThrottleIntervalConfig {
            period,
            edge: IntervalEdge::Leading,
        },
        ThrottleIntervalConfig {
            period,
            edge: IntervalEdge::Trailing,
        },
    ] {
        assert_eq!(
            &run_alternating_delay_script(config, first_delay, second_delay, expected_items.len()),
            &expected_items
        );
    }
}

#[test]
fn should_pass_through_the_input_stream_if_the_period_is_shorter_than_the_arrival_rate() {
    let first_delay = 10;
    let second_delay = 20;
    let period = 9;
    let expected_leading = [
        (0, 0),
        (10, 1),
        (30, 2),
        (40, 3),
        (60, 4),
        (70, 5),
        (90, 6),
        (100, 7),
        (120, 8),
        (130, 9),
    ];
    let expected_trailing = [
        (9, 0),
        (18, 1),
        (39, 2),
        (48, 3),
        (69, 4),
        (78, 5),
        (99, 6),
        (108, 7),
        (129, 8),
        (138, 9),
    ];
    assert_eq!(
        &run_alternating_delay_script(
            ThrottleIntervalConfig {
                period,
                edge: IntervalEdge::Leading,
            },
            first_delay,
            second_delay,
            expected_leading.len(),
        ),
        &expected_leading
    );
    assert_eq!(
        &run_alternating_delay_script(
            ThrottleIntervalConfig {
                period,
                edge: IntervalEdge::Trailing,
            },
            first_delay,
            second_delay,
            expected_trailing.len(),
        ),
        &expected_trailing
    );
}

#[test]
fn leading_edge_sequence() {
    // ms:   0 | 20 | 30 | 50 | 60 | 80 | 90 | 110 | 120 | 140 | 150 | 170 | 180 | 200 | 210
    // item: 0 |  1 |  2 |  3 |  4 |  5 |  6 |   7 |   8 |   9 |  10 |  11 |  12 |  13 |  14
    let first_delay = 20;
    let second_delay = 10;
    let config = ThrottleIntervalConfig {
        period: 19,
        edge: IntervalEdge::Leading,
    };
    // ms:   0 | 19 | 20 | 39 | 58 | 77 | 96 | 115 | 134 | 153 | 172 | 191 | 210
    // item: 0 |  - |  1 |  2 |  3 |  4 |  6 |   7 |   8 |  10 |  11 |  12 |  14
    let expected_items = &[
        (0, 0),
        (20, 1),
        (39, 2),
        (58, 3),
        (77, 4),
        (96, 6),
        (115, 7),
        (134, 8),
        (153, 10),
        (172, 11),
        (191, 12),
        (210, 14),
    ];
    let collected_items = run_alternating_delay_script(config, first_delay, second_delay, 15);
    assert_eq!(expected_items, collected_items.as_slice());
}

#[test]
fn trailing_edge_sequence() {
    // ms:   0 | 10 | 30 | 40 | 60 | 70 | 90 | 100 | 120 | 130 | 150 | 160 | 180 | 190 | 210 | 220
    // item: 0 |  1 |  2 |  3 |  4 |  5 |  6 |   7 |   8 |   9 |  10 |  11 |  12 |  13 |  14 |  15
    let first_delay = 10;
    let second_delay = 20;
    let config = ThrottleIntervalConfig {
        period: 19,
        edge: IntervalEdge::Trailing,
    };
    // ms:   0 | 19 | 38 | 57 | 76 | 95 | 114 | 133 | 152 | 171 | 190 | 209 | 210 | 229
    // item: * |  1 |  2 |  3 |  5 |  6 |   7 |   9 |  10 |  11 |  13 |   - |   * |  15
    let expected_items = &[
        (19, 1),
        (38, 2),
        (57, 3),
        (76, 5),
        (95, 6),
        (114, 7),
        (133, 9),
        (152, 10),
        (171, 11),
        (190, 13),
        (229, 15),
    ];
    let collected_items = run_alternating_delay_script(config, first_delay, second_delay, 16);
    assert_eq!(expected_items, collected_items.as_slice());
}

#[test]
fn trailing_edge_sequence_long_second_delay() {
    // ms:   0 | 10 | 110 | 120 | 220 | 230 | 330 | 340
    // item: 0 |  1 |   2 |   3 |   4 |   5 |   6 |   7
    let first_delay = 10;
    let second_delay = 100;
    let config = ThrottleIntervalConfig {
        period: 19,
        edge: IntervalEdge::Trailing,
    };
    let expected_items = &[(19, 1), (129, 3), (239, 5), (349, 7)];
    assert_eq!(
        &run_alternating_delay_script(config, first_delay, second_delay, 8),
        expected_items
    );
}

#[test]
fn should_finish_on_empty_input_stream() {
    for period in [0, 1, 2] {
        for edge in [IntervalEdge::Leading, IntervalEdge::Trailing] {
            let config = ThrottleIntervalConfig { period, edge };
            let (out, finished) = run_throttled(Vec::<(u64, ())>::new(), config, 1, 100);
            assert!(finished);
            assert_eq!(Vec::<(u64, ())>::new(), out);
        }
    }
}

#[test]
fn should_finish_after_non_empty_input_stream_has_completed() {
    for period in [0, 1, 2] {
        for edge in [IntervalEdge::Leading, IntervalEdge::Trailing] {
            let config = ThrottleIntervalConfig { period, edge };
            let (out, finished) = run_throttled(vec![(0u64, ())], config, 1, 100);
            assert!(finished);
            let items: Vec<()> = out.iter().map(|p| p.1).collect();
            assert_eq!(&[()], items.as_slice());
        }
    }
}

#[test]
fn coalesces_bursts_to_the_most_recent_item() {
    // A burst of three items inside one period: only the most recent
    // survives to the next opening.
    let script = vec![(0u64, 0usize), (1, 1), (2, 2), (3, 3)];
    let config = ThrottleIntervalConfig {
        period: 10,
        edge: IntervalEdge::Leading,
    };
    let (out, finished) = run_throttled(script, config, 1, 100);
    assert!(finished);
    assert_eq!(&[(0, 0), (10, 3)], out.as_slice());
}

#[test]
fn larger_ready_count_bound_still_emits_the_freshest_item() {
    // With a generous drain bound, a burst that is entirely ready at the
    // same instant coalesces into its last item.
    let script = vec![(0u64, 0usize), (0, 1), (0, 2), (0, 3)];
    let config = ThrottleIntervalConfig {
        period: 5,
        edge: IntervalEdge::Leading,
    };
    let (out, finished) = run_throttled(script, config, 8, 100);
    assert!(finished);
    assert_eq!(&[(0, 3)], out.as_slice());
}
