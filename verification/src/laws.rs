//! The general facts that hold of every adapter of this crate.
//!
//! Each adapter maintains, as part of its well-formedness, a *trace*: the
//! items consumed so far, the outputs yielded so far, and the accumulator
//! now in storage are linked by a chain of single steps ([`scan_trace`]).
//! The lemmas below state what follows for every such trace: one output per
//! consumed item, and — when the step relation is a function — a uniquely
//! determined output sequence, given by the mathematical scan
//! ([`scan_outputs`]).

use vstd::prelude::*;

verus! {

/// The outputs of a scan whose combined step is the *function* `g`: from
/// accumulator `init`, each item `x` turns accumulator `s` into
/// `g(s, x).0` and yields `g(s, x).1`.
pub open spec fn scan_outputs<Item, State, Value>(
    g: spec_fn(State, Item) -> (State, Value),
    init: State,
    items: Seq<Item>,
) -> Seq<Value>
    decreases items.len(),
{
    if items.len() == 0 {
        Seq::empty()
    } else {
        seq![g(init, items.first()).1] + scan_outputs(g, g(init, items.first()).0, items.drop_first())
    }
}

/// The accumulator left in storage after scanning `items` with the combined
/// step function `g`, starting from `init`.
pub open spec fn scan_final<Item, State, Value>(
    g: spec_fn(State, Item) -> (State, Value),
    init: State,
    items: Seq<Item>,
) -> State
    decreases items.len(),
{
    if items.len() == 0 {
        init
    } else {
        scan_final::<Item, State, Value>(g, g(init, items.first()).0, items.drop_first())
    }
}

/// A run of an adapter, as a relation: starting from accumulator `s0`, the
/// items `items` were consumed in order, the outputs `outs` were yielded in
/// order, one per item, each produced from the previous accumulator by one
/// `step`, and `s_end` is the accumulator left in storage.
pub open spec fn scan_trace<Item, State, Value>(
    step: spec_fn(State, Item, State, Value) -> bool,
    s0: State,
    items: Seq<Item>,
    outs: Seq<Value>,
    s_end: State,
) -> bool
    decreases items.len(),
{
    if items.len() == 0 {
        outs.len() == 0 && s_end == s0
    } else {
        &&& items.len() == outs.len()
        &&& exists|s1: State|
            #[trigger] step(s0, items.first(), s1, outs.first()) && scan_trace(
                step,
                s1,
                items.drop_first(),
                outs.drop_first(),
                s_end,
            )
    }
}

/// None of the variants filters: the scan of a finite source produces
/// exactly one output per source item.
pub proof fn lemma_scan_output_count<Item, State, Value>(
    g: spec_fn(State, Item) -> (State, Value),
    init: State,
    items: Seq<Item>,
)
    ensures
        scan_outputs(g, init, items).len() == items.len(),
    decreases items.len(),
{
    if items.len() > 0 {
        lemma_scan_output_count(g, g(init, items.first()).0, items.drop_first());
    }
}

/// A trace yields exactly one output per consumed item.
pub proof fn lemma_scan_trace_count<Item, State, Value>(
    step: spec_fn(State, Item, State, Value) -> bool,
    s0: State,
    items: Seq<Item>,
    outs: Seq<Value>,
    s_end: State,
)
    requires
        scan_trace(step, s0, items, outs, s_end),
    ensures
        outs.len() == items.len(),
{
}

/// A trace under a step relation is also a trace under any weaker one.
pub proof fn lemma_scan_trace_weaken<Item, State, Value>(
    fine: spec_fn(State, Item, State, Value) -> bool,
    coarse: spec_fn(State, Item, State, Value) -> bool,
    s0: State,
    items: Seq<Item>,
    outs: Seq<Value>,
    s_end: State,
)
    requires
        forall|s: State, x: Item, s1: State, y: Value|
            #[trigger] fine(s, x, s1, y) ==> coarse(s, x, s1, y),
        scan_trace(fine, s0, items, outs, s_end),
    ensures
        scan_trace(coarse, s0, items, outs, s_end),
    decreases items.len(),
{
    if items.len() > 0 {
        let s1 = choose|s1: State|
            #[trigger] fine(s0, items.first(), s1, outs.first()) && scan_trace(
                fine,
                s1,
                items.drop_first(),
                outs.drop_first(),
                s_end,
            );
        lemma_scan_trace_weaken(fine, coarse, s1, items.drop_first(), outs.drop_first(), s_end);
    }
}

/// A trace grows by one step at its end.
pub proof fn lemma_scan_trace_snoc<Item, State, Value>(
    step: spec_fn(State, Item, State, Value) -> bool,
    s0: State,
    items: Seq<Item>,
    outs: Seq<Value>,
    s_end: State,
    x: Item,
    s_new: State,
    y: Value,
)
    requires
        scan_trace(step, s0, items, outs, s_end),
        step(s_end, x, s_new, y),
    ensures
        scan_trace(step, s0, items.push(x), outs.push(y), s_new),
    decreases items.len(),
{
    if items.len() == 0 {
        assert(items.push(x).drop_first() =~= Seq::<Item>::empty());
        assert(outs.push(y).drop_first() =~= Seq::<Value>::empty());
        assert(items.push(x).first() == x);
        assert(outs.push(y).first() == y);
        assert(step(s0, items.push(x).first(), s_new, outs.push(y).first()) && scan_trace(
            step,
            s_new,
            items.push(x).drop_first(),
            outs.push(y).drop_first(),
            s_new,
        ));
    } else {
        let s1 = choose|s1: State|
            #[trigger] step(s0, items.first(), s1, outs.first()) && scan_trace(
                step,
                s1,
                items.drop_first(),
                outs.drop_first(),
                s_end,
            );
        lemma_scan_trace_snoc(step, s1, items.drop_first(), outs.drop_first(), s_end, x, s_new, y);
        assert(items.push(x).drop_first() =~= items.drop_first().push(x));
        assert(outs.push(y).drop_first() =~= outs.drop_first().push(y));
        assert(items.push(x).first() == items.first());
        assert(outs.push(y).first() == outs.first());
        assert(step(s0, items.push(x).first(), s1, outs.push(y).first()) && scan_trace(
            step,
            s1,
            items.push(x).drop_first(),
            outs.push(y).drop_first(),
            s_new,
        ));
    }
}

/// When the step relation is a *function* — for each accumulator and item
/// it allows exactly the accumulator and output given by `g` — a trace is
/// fully determined: the outputs are the mathematical scan of the consumed
/// items and the accumulator in storage is its final accumulator.
pub proof fn lemma_scan_trace_determined<Item, State, Value>(
    step: spec_fn(State, Item, State, Value) -> bool,
    g: spec_fn(State, Item) -> (State, Value),
    s0: State,
    items: Seq<Item>,
    outs: Seq<Value>,
    s_end: State,
)
    requires
        forall|s: State, x: Item, s1: State, y: Value|
            #[trigger] step(s, x, s1, y) ==> (s1, y) == g(s, x),
        scan_trace(step, s0, items, outs, s_end),
    ensures
        outs == scan_outputs(g, s0, items),
        s_end == scan_final::<Item, State, Value>(g, s0, items),
    decreases items.len(),
{
    if items.len() == 0 {
        assert(outs =~= scan_outputs(g, s0, items));
    } else {
        let s1 = choose|s1: State|
            #[trigger] step(s0, items.first(), s1, outs.first()) && scan_trace(
                step,
                s1,
                items.drop_first(),
                outs.drop_first(),
                s_end,
            );
        lemma_scan_trace_determined(step, g, s1, items.drop_first(), outs.drop_first(), s_end);
        assert(outs =~= seq![outs.first()] + outs.drop_first());
    }
}

/// Determinism: two runs over the same items, from the same initial
/// accumulator, under the same function-like step relation, yield identical
/// output sequences and identical final accumulators.
pub proof fn lemma_scan_deterministic<Item, State, Value>(
    step: spec_fn(State, Item, State, Value) -> bool,
    g: spec_fn(State, Item) -> (State, Value),
    s0: State,
    items: Seq<Item>,
    outs1: Seq<Value>,
    end1: State,
    outs2: Seq<Value>,
    end2: State,
)
    requires
        forall|s: State, x: Item, s1: State, y: Value|
            #[trigger] step(s, x, s1, y) ==> (s1, y) == g(s, x),
        scan_trace(step, s0, items, outs1, end1),
        scan_trace(step, s0, items, outs2, end2),
    ensures
        outs1 == outs2,
        end1 == end2,
{
    lemma_scan_trace_determined(step, g, s0, items, outs1, end1);
    lemma_scan_trace_determined(step, g, s0, items, outs2, end2);
}

} // verus!
