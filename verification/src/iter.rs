//! The generic engine: an internal lazy adapter that threads an owned
//! accumulator through the elements of a source sequence.

use crate::laws::{lemma_scan_trace_snoc, scan_trace};
use crate::pseudo_func::PseudoFunc;
use core::marker::PhantomData;
use replace_with::replace_with_or_abort_and_return;
use vstd::prelude::*;

verus! {

/// One step of the engine, as a relation: starting from accumulator `s0` and
/// source item `x`, the step function `f` may produce an intermediate value
/// that the duplication strategy `D` splits into the retained accumulator
/// `s1` and the yielded output `y`.
pub open spec fn scan_step<Item, D: PseudoFunc<Inter, (State, Value)>, C: Fn(State, Item) -> Inter, State, Inter, Value>(
    f: C,
    s0: State,
    x: Item,
    s1: State,
    y: Value,
) -> bool {
    exists|i: Inter| #[trigger] call_ensures(f, (s0, x), i) && D::post(i, (s1, y))
}

/// An internal lazy adapter to maintain state while iterating over the source
/// sequence.  `Duplicate` fixes, at compile time, how the raw result of each
/// step is split into (retained accumulator, yielded output).
pub struct Iter<Item, Duplicate, Compute, State, Inter, Value> {
    pub(crate) source: Vec<Item>,
    pub(crate) state: State,
    pub(crate) compute: Compute,
    pub(crate) taken: Ghost<Seq<Item>>,
    pub(crate) given: Ghost<Seq<Value>>,
    pub(crate) start: Ghost<State>,
    pub(crate) _phantom: PhantomData<(Duplicate, Inter)>,
}

impl<Item, D, C, State, Inter, Value> Iter<Item, D, C, State, Inter, Value> where
    D: PseudoFunc<Inter, (State, Value)>,
    C: Fn(State, Item) -> Inter,
 {
    /// The source items not yet consumed, in the order they will be consumed.
    pub closed spec fn remaining(self) -> Seq<Item> {
        self.source@
    }

    /// The accumulator currently held in storage.
    pub closed spec fn accum(self) -> State {
        self.state
    }

    /// The step function.
    pub closed spec fn step_fn(self) -> C {
        self.compute
    }

    /// One step of this adapter, as a relation over the accumulator before,
    /// the item consumed, the accumulator after, and the output yielded.
    pub open spec fn step_rel(self) -> spec_fn(State, Item, State, Value) -> bool {
        let f = self.step_fn();
        |s0: State, x: Item, s1: State, y: Value|
            scan_step::<Item, D, C, State, Inter, Value>(f, s0, x, s1, y)
    }

    /// The source items consumed so far, oldest first.
    pub closed spec fn consumed(self) -> Seq<Item> {
        self.taken@
    }

    /// The outputs yielded so far, oldest first.
    pub closed spec fn produced(self) -> Seq<Value> {
        self.given@
    }

    /// The initial accumulator the adapter was built with.
    pub closed spec fn initial(self) -> State {
        self.start@
    }

    /// Well-formed: the step function accepts every accumulator/item pair,
    /// and everything consumed and yielded so far forms one trace of the
    /// step relation from the initial accumulator to the stored one.
    pub closed spec fn wf(self) -> bool {
        &&& forall|s: State, x: Item| #[trigger] call_requires(self.compute, (s, x))
        &&& scan_trace(self.step_rel(), self.start@, self.taken@, self.given@, self.state)
    }

    /// What well-formedness records of the run so far: the consumed items,
    /// the yielded outputs and the stored accumulator are one trace of the
    /// step relation from the initial accumulator.
    pub proof fn lemma_wf_trace(self)
        requires
            self.wf(),
        ensures
            scan_trace(self.step_rel(), self.initial(), self.consumed(), self.produced(), self.accum()),
    {
    }

    /// Build the adapter.  No item is pulled and the step function is not
    /// invoked until the first call to [`Self::next`].
    pub(crate) fn new(source: Vec<Item>, initial: State, compute: C) -> (r: Self)
        requires
            forall|s: State, x: Item| #[trigger] call_requires(compute, (s, x)),
        ensures
            r.wf(),
            r.remaining() == source@,
            r.accum() == initial,
            r.step_fn() == compute,
            r.consumed() == Seq::<Item>::empty(),
            r.produced() == Seq::<Value>::empty(),
            r.initial() == initial,
    {
        let ghost start = initial;
        Iter {
            source,
            state: initial,
            compute,
            taken: Ghost(Seq::empty()),
            given: Ghost(Seq::empty()),
            start: Ghost(start),
            _phantom: PhantomData,
        }
    }

    /// Produce the next output, or report that the source is exhausted.
    ///
    /// On success the engine has consumed exactly one item, has yielded
    /// exactly one output, and has replaced the accumulator exactly once,
    /// as one step of [`scan_step`].  Once the source is exhausted the
    /// adapter stays exhausted and untouched.
    pub fn next(&mut self) -> (r: Option<Value>)
        requires
            old(self).wf(),
        ensures
            final(self).wf(),
            final(self).step_fn() == old(self).step_fn(),
            final(self).initial() == old(self).initial(),
            match r {
                None => {
                    &&& old(self).remaining().len() == 0
                    &&& *final(self) == *old(self)
                },
                Some(y) => {
                    &&& old(self).remaining().len() > 0
                    &&& final(self).remaining() == old(self).remaining().drop_first()
                    &&& final(self).consumed() == old(self).consumed().push(
                        old(self).remaining().first(),
                    )
                    &&& final(self).produced() == old(self).produced().push(y)
                    &&& scan_step::<Item, D, C, State, Inter, Value>(
                        old(self).step_fn(),
                        old(self).accum(),
                        old(self).remaining().first(),
                        final(self).accum(),
                        y,
                    )
                },
            },
    {
        if self.source.len() == 0 {
            return None;
        }
        let x = self.source.remove(0);
        proof {
            assert(old(self).source@.remove(0) =~= old(self).source@.drop_first());
        }
        let ghost f = self.compute;
        let ghost x0 = x;
        let step = |s: State| -> (p: (Value, State))
            ensures
                scan_step::<Item, D, C, State, Inter, Value>(f, s, x0, p.1, p.0),
            {
                let i = (self.compute)(s, x);
                let (s2, out) = D::exec(i);
                (out, s2)
            };
        let y = replace_with_or_abort_and_return(&mut self.state, step);
        proof {
            assert(old(self).step_rel()(old(self).state, x0, self.state, y));
            lemma_scan_trace_snoc(
                old(self).step_rel(),
                old(self).start@,
                old(self).taken@,
                old(self).given@,
                old(self).state,
                x0,
                self.state,
                y,
            );
            self.taken@ = self.taken@.push(x0);
            self.given@ = self.given@.push(y);
        }
        Some(y)
    }

    /// How many outputs are still to come: every remaining item yields
    /// exactly one output, so both bounds equal the number of remaining
    /// items.
    pub fn size_hint(&self) -> (r: (usize, Option<usize>))
        ensures
            r.0 == self.remaining().len(),
            r.1 == Some(r.0),
    {
        let n = self.source.len();
        (n, Some(n))
    }
}

} // verus!
