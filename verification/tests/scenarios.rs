//! End-to-end runs of the named adapters on concrete sources.

use iter_scan::IterScan;

/// Clone-based accumulation: appending each character to a growing string
/// yields every prefix of the source.
#[test]
fn scenario_clone_prefixes() {
    let source: Vec<char> = vec!['a', 'b', 'c', 'd', 'e', 'f'];
    let mut adapter = source.scan_clone(String::new(), |mut acc: String, c: char| {
        acc.push(c);
        acc
    });
    let mut outputs: Vec<String> = Vec::new();
    while let Some(v) = adapter.next() {
        outputs.push(v);
    }
    assert_eq!(outputs, vec!["a", "ab", "abc", "abcd", "abcde", "abcdef"]);
}

/// Copy-based accumulation: multiplying by each item yields the running
/// factorials.
#[test]
fn scenario_copy_products() {
    let source: Vec<u64> = vec![2, 3, 4, 5];
    let mut adapter = source.scan_copy(1u64, |acc: u64, x: u64| acc * x);
    let mut outputs: Vec<u64> = Vec::new();
    while let Some(v) = adapter.next() {
        outputs.push(v);
    }
    assert_eq!(outputs, vec![2, 6, 24, 120]);
}

#[derive(Clone, Copy, PartialEq, Eq, Debug)]
enum Tok {
    Value(&'static str),
    Separator,
}

/// State-paired accumulation with filtering downstream: a separator bumps
/// the counter and yields nothing of interest; a value is paired with the
/// current counter.  Dropping the no-output entries leaves each value
/// tagged with the number of separators before it.
#[test]
fn scenario_state_copy_numbering() {
    let source: Vec<Tok> = vec![
        Tok::Value("zero"),
        Tok::Value("one"),
        Tok::Value("two"),
        Tok::Separator,
        Tok::Value("three"),
        Tok::Value("four"),
        Tok::Separator,
        Tok::Value("five"),
        Tok::Separator,
        Tok::Value("six"),
    ];
    let mut adapter = source.scan_state_copy(0u32, |count: u32, t: Tok| match t {
        Tok::Separator => (count + 1, None),
        Tok::Value(v) => (count, Some(v)),
    });
    let mut outputs: Vec<(u32, &'static str)> = Vec::new();
    while let Some((count, v)) = adapter.next() {
        if let Some(v) = v {
            outputs.push((count, v));
        }
    }
    assert_eq!(
        outputs,
        vec![
            (0, "zero"),
            (0, "one"),
            (0, "two"),
            (1, "three"),
            (1, "four"),
            (2, "five"),
            (3, "six"),
        ]
    );
}

/// The state-paired clone variant yields the same pairs when the state is
/// clonable rather than copyable.
#[test]
fn scenario_state_clone_numbering() {
    let source: Vec<Tok> = vec![Tok::Value("zero"), Tok::Separator, Tok::Value("one")];
    let mut adapter = source.scan_state_clone(String::new(), |mut seen: String, t: Tok| match t {
        Tok::Separator => {
            seen.push('|');
            (seen, None)
        },
        Tok::Value(v) => (seen, Some(v)),
    });
    let mut outputs: Vec<(String, Option<&'static str>)> = Vec::new();
    while let Some(pair) = adapter.next() {
        outputs.push(pair);
    }
    assert_eq!(
        outputs,
        vec![
            (String::new(), Some("zero")),
            (String::from("|"), None),
            (String::from("|"), Some("one")),
        ]
    );
}

/// A move-only accumulator: the adapter never duplicates it, the step
/// function alone decides what is retained and what is yielded.
struct Ledger {
    entries: Vec<u64>,
}

#[test]
fn scenario_with_tuple_move_only() {
    let source: Vec<u64> = vec![5, 7, 11];
    let mut adapter = source.scan_with_tuple(
        Ledger { entries: Vec::new() },
        |mut ledger: Ledger, x: u64| {
            ledger.entries.push(x);
            let total: u64 = ledger.entries.iter().sum();
            (ledger, total)
        },
    );
    let mut outputs: Vec<u64> = Vec::new();
    while let Some(v) = adapter.next() {
        outputs.push(v);
    }
    assert_eq!(outputs, vec![5, 12, 23]);
}
