use futures_stream_ext::sim::run_debounced;

#[test]
fn debounce() {
    // Items arrive every 17 ms; with a 10 ms delay no coalescing occurs,
    // and each item is emitted exactly one delay after its own arrival.
    let debounce_delay = 10;
    let item_period = 17;
    let script: Vec<(u64, usize)> = (0..10).map(|i| (item_period * i as u64, i)).collect();
    let expected = [
        (10, 0),
        (27, 1),
        (44, 2),
        (61, 3),
        (78, 4),
        (95, 5),
        (112, 6),
        (129, 7),
        (146, 8),
        (163, 9),
    ];
    let (out, finished) = run_debounced(script, debounce_delay, 1_000);
    assert!(finished);
    assert_eq!(&out, &expected);
}

#[test]
fn debounce_coalesces_rapid_arrivals() {
    // Arrivals closer together than the delay supersede each other: only
    // the most recent item is emitted, one delay after its arrival.
    let script = vec![(0u64, 0usize), (3, 1), (6, 2)];
    let (out, finished) = run_debounced(script, 10, 100);
    assert!(finished);
    assert_eq!(&[(16, 2)], out.as_slice());
}

#[test]
fn debounce_zero_delay_emits_each_item() {
    let script = vec![(0u64, 0usize), (5, 1), (10, 2)];
    let (out, finished) = run_debounced(script, 0, 100);
    assert!(finished);
    assert_eq!(&[(0, 0), (5, 1), (10, 2)], out.as_slice());
}

#[test]
fn debounce_finishes_on_empty_input() {
    let (out, finished) = run_debounced(Vec::<(u64, u32)>::new(), 10, 100);
    assert!(finished);
    assert_eq!(Vec::<(u64, u32)>::new(), out);
}

#[test]
fn debounce_emits_final_item_before_finishing() {
    // The last upstream item is never silently dropped: it is emitted
    // after its delay, and only then is exhaustion reported.
    let script = vec![(0u64, 7usize)];
    let (out, finished) = run_debounced(script, 25, 100);
    assert!(finished);
    assert_eq!(&[(25, 7)], out.as_slice());
}
