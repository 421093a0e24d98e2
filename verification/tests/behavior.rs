//! The general behavior shared by every adapter: one output per item,
//! deterministic replay, exact size hints, permanent exhaustion, and the
//! per-step relation between the yielded output and the retained
//! accumulator.

use iter_scan::{IterScan, Scan, ScanClone, ScanCopy, ScanWithTuple};

/// One output per source item, for every variant.
#[test]
fn output_count_matches_source() {
    let source: Vec<i64> = vec![1, -2, 3, -4, 5, -6, 7];
    let n = source.len();
    let mut adapter = source.scan_copy(0i64, |acc: i64, x: i64| acc + x);
    let mut count = 0usize;
    while adapter.next().is_some() {
        count += 1;
    }
    assert_eq!(count, n);
}

/// An empty source produces no output at all.
#[test]
fn empty_source_yields_nothing() {
    let source: Vec<u8> = Vec::new();
    let mut adapter = source.scan_clone(String::from("seed"), |acc: String, _x: u8| acc);
    assert_eq!(adapter.size_hint(), (0, Some(0)));
    assert!(adapter.next().is_none());
}

/// Two equivalent constructions with a pure step function replay the same
/// output sequence.
#[test]
fn deterministic_replay() {
    let build = || {
        let source: Vec<u32> = vec![3, 1, 4, 1, 5, 9, 2, 6];
        source.scan_copy(7u32, |acc: u32, x: u32| acc.rotate_left(3) ^ x)
    };
    let mut first = build();
    let mut second = build();
    let mut outs1: Vec<u32> = Vec::new();
    let mut outs2: Vec<u32> = Vec::new();
    while let Some(v) = first.next() {
        outs1.push(v);
    }
    while let Some(v) = second.next() {
        outs2.push(v);
    }
    assert_eq!(outs1, outs2);
    assert_eq!(outs1.len(), 8);
}

/// The size hint of a source of exactly known length stays exact: it starts
/// at (N, Some(N)) and counts down by one per produced output.
#[test]
fn size_hint_exact_and_decreasing() {
    let source: Vec<u16> = vec![10, 20, 30];
    let mut adapter = source.scan_copy(0u16, |acc: u16, x: u16| acc.wrapping_add(x));
    assert_eq!(adapter.size_hint(), (3, Some(3)));
    adapter.next();
    assert_eq!(adapter.size_hint(), (2, Some(2)));
    adapter.next();
    assert_eq!(adapter.size_hint(), (1, Some(1)));
    adapter.next();
    assert_eq!(adapter.size_hint(), (0, Some(0)));
}

/// Once the source is exhausted, the adapter reports end-of-sequence on
/// every later call.
#[test]
fn exhaustion_is_permanent() {
    let source: Vec<u8> = vec![1];
    let mut adapter = source.scan_copy(0u8, |acc: u8, x: u8| acc | x);
    assert_eq!(adapter.next(), Some(1));
    for _ in 0..5 {
        assert!(adapter.next().is_none());
        assert_eq!(adapter.size_hint(), (0, Some(0)));
    }
}

/// For the clone and copy variants, each yielded output equals the
/// accumulator handed to the following step: the next output is the step
/// function applied to the previous output.
#[test]
fn yielded_output_feeds_next_step() {
    let source: Vec<u64> = vec![9, 8, 7, 6];
    let step = |acc: u64, x: u64| acc * 10 + x;
    let mut adapter = source.clone().scan_copy(0u64, step);
    let mut outputs: Vec<u64> = Vec::new();
    while let Some(v) = adapter.next() {
        outputs.push(v);
    }
    for i in 1..outputs.len() {
        assert_eq!(outputs[i], step(outputs[i - 1], source[i]));
    }
    assert_eq!(outputs[0], step(0, source[0]));
    assert_eq!(outputs, vec![9, 98, 987, 9876]);
}

/// The constructors are also reachable without the facade trait.
#[test]
fn direct_constructors() {
    let mut by_clone = ScanClone::new(vec!['x', 'y'], String::new(), |mut acc: String, c: char| {
        acc.push(c);
        acc
    });
    assert_eq!(by_clone.next(), Some(String::from("x")));
    assert_eq!(by_clone.next(), Some(String::from("xy")));
    assert_eq!(by_clone.next(), None);

    let mut by_copy = ScanCopy::new(vec![1u8, 2, 3], 0u8, |acc: u8, x: u8| acc + x);
    assert_eq!(by_copy.next(), Some(1));
    assert_eq!(by_copy.next(), Some(3));
    assert_eq!(by_copy.next(), Some(6));
    assert_eq!(by_copy.next(), None);

    let mut by_tuple =
        ScanWithTuple::new(vec![4u32, 5], 100u32, |acc: u32, x: u32| (acc + x, acc * x));
    assert_eq!(by_tuple.next(), Some(400));
    assert_eq!(by_tuple.next(), Some(520));
    assert_eq!(by_tuple.next(), None);
}

/// The engine whose duplication strategy is a function value behaves like
/// the compile-time variants when given the same strategy.
#[test]
fn scan_with_function_valued_strategy() {
    let duplicate = |x: u32| (x, x);
    let mut adapter = Scan::new(vec![2u32, 3, 4, 5], 1u32, duplicate, |acc: u32, x: u32| acc * x);
    assert_eq!(adapter.size_hint(), (4, Some(4)));
    let mut outputs: Vec<u32> = Vec::new();
    while let Some(v) = adapter.next() {
        outputs.push(v);
    }
    assert_eq!(outputs, vec![2, 6, 24, 120]);
}

/// A strategy that retains a clone and yields the computed value, given to
/// the function-valued engine.
#[test]
fn scan_with_cloning_strategy() {
    let duplicate = |x: Vec<u8>| (x.clone(), x);
    let mut adapter = Scan::new(
        vec![1u8, 2],
        Vec::new(),
        duplicate,
        |mut acc: Vec<u8>, x: u8| {
            acc.push(x);
            acc
        },
    );
    assert_eq!(adapter.next(), Some(vec![1]));
    assert_eq!(adapter.next(), Some(vec![1, 2]));
    assert_eq!(adapter.next(), None);
}
