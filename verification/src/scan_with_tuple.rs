//! Accumulate with an owned pair: the move-only variant.

use crate::iter::Iter;
use crate::laws::{lemma_scan_trace_weaken, scan_trace};
use crate::pseudo_func::PseudoFunc;
use vstd::prelude::*;

verus! {

/// Pseudo-function that returns the value it received as-is.
pub struct Identity;

impl<X> PseudoFunc<X, X> for Identity {
    open spec fn post(x: X, y: X) -> bool {
        y == x
    }

    fn exec(x: X) -> (y: X) {
        x
    }
}

/// An adapter created by
/// [`scan_with_tuple`](crate::IterScan::scan_with_tuple): the step function
/// returns the (retained accumulator, yielded output) pair directly, and the
/// pair is forwarded unchanged.  Nothing is duplicated, so the accumulator
/// type may support neither clone nor copy.
pub struct ScanWithTuple<Item, Compute, State, Value> {
    internal: Iter<Item, Identity, Compute, State, (State, Value), Value>,
}

impl<Item, C, State, Value> ScanWithTuple<Item, C, State, Value> where
    C: Fn(State, Item) -> (State, Value),
 {
    /// The source items not yet consumed, in the order they will be consumed.
    pub closed spec fn remaining(self) -> Seq<Item> {
        self.internal.remaining()
    }

    /// The accumulator currently held in storage.
    pub closed spec fn accum(self) -> State {
        self.internal.accum()
    }

    /// The step function.
    pub closed spec fn step_fn(self) -> C {
        self.internal.step_fn()
    }

    /// One step of this adapter, as a relation over the accumulator before,
    /// the item consumed, the accumulator after, and the output yielded:
    /// the step function returned exactly the (new accumulator, output) pair.
    pub open spec fn step_rel(self) -> spec_fn(State, Item, State, Value) -> bool {
        let f = self.step_fn();
        |s0: State, x: Item, s1: State, y: Value| call_ensures(f, (s0, x), (s1, y))
    }

    /// What well-formedness records of the run so far: the consumed items,
    /// the yielded outputs and the stored accumulator are one trace of the
    /// step relation from the initial accumulator.
    pub proof fn lemma_wf_trace(self)
        requires
            self.wf(),
        ensures
            scan_trace(self.step_rel(), self.initial(), self.consumed(), self.produced(), self.accum()),
    {
        self.internal.lemma_wf_trace();
        assert forall|s0: State, x: Item, s1: State, y: Value|
            #[trigger] self.internal.step_rel()(s0, x, s1, y) implies self.step_rel()(s0, x, s1, y) by {
        };
        lemma_scan_trace_weaken(
            self.internal.step_rel(),
            self.step_rel(),
            self.initial(),
            self.consumed(),
            self.produced(),
            self.accum(),
        );
    }

    /// The source items consumed so far, oldest first.
    pub closed spec fn consumed(self) -> Seq<Item> {
        self.internal.consumed()
    }

    /// The outputs yielded so far, oldest first.
    pub closed spec fn produced(self) -> Seq<Value> {
        self.internal.produced()
    }

    /// The initial accumulator the adapter was built with.
    pub closed spec fn initial(self) -> State {
        self.internal.initial()
    }

    /// Well-formed: established by the constructor, preserved by every call.
    pub closed spec fn wf(self) -> bool {
        self.internal.wf()
    }

    /// Build the adapter.  No item is pulled and the step function is not
    /// invoked until the first call to [`Self::next`].
    pub fn new(source: Vec<Item>, initial: State, compute: C) -> (r: Self)
        requires
            forall|s: State, x: Item| #[trigger] call_requires(compute, (s, x)),
        ensures
            r.wf(),
            r.remaining() == source@,
            r.accum() == initial,
            r.step_fn() == compute,
            r.consumed() == Seq::<Item>::empty(),
            r.produced() == Seq::<Value>::empty(),
            r.initial() == initial,
    {
        ScanWithTuple { internal: Iter::new(source, initial, compute) }
    }

    /// Produce the next output, or report that the source is exhausted.
    ///
    /// On success the pair the step function returned for the current
    /// accumulator and the consumed item is forwarded without any
    /// transformation: its first component is exactly the retained
    /// accumulator and its second component is exactly the yielded output.
    pub fn next(&mut self) -> (r: Option<Value>)
        requires
            old(self).wf(),
        ensures
            final(self).wf(),
            final(self).step_fn() == old(self).step_fn(),
            final(self).initial() == old(self).initial(),
            match r {
                None => {
                    &&& old(self).remaining().len() == 0
                    &&& *final(self) == *old(self)
                },
                Some(y) => {
                    &&& old(self).remaining().len() > 0
                    &&& final(self).remaining() == old(self).remaining().drop_first()
                    &&& final(self).consumed() == old(self).consumed().push(
                        old(self).remaining().first(),
                    )
                    &&& final(self).produced() == old(self).produced().push(y)
                    &&& call_ensures(
                        old(self).step_fn(),
                        (old(self).accum(), old(self).remaining().first()),
                        (final(self).accum(), y),
                    )
                },
            },
    {
        self.internal.next()
    }

    /// How many outputs are still to come: both bounds equal the number of
    /// remaining source items, since every item yields exactly one output.
    pub fn size_hint(&self) -> (r: (usize, Option<usize>))
        ensures
            r.0 == self.remaining().len(),
            r.1 == Some(r.0),
    {
        self.internal.size_hint()
    }
}

} // verus!
