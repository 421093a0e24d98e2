//! The public facade: named entry points that each bind the engine to one
//! duplication strategy.

use crate::scan_clone::ScanClone;
use crate::scan_copy::ScanCopy;
use crate::scan_state_clone::ScanStateClone;
use crate::scan_state_copy::ScanStateCopy;
use crate::scan_with_tuple::ScanWithTuple;
use vstd::prelude::*;

verus! {

/// Scan methods over an owned source sequence.
///
/// Each method consumes the source, takes an initial accumulator and a step
/// function that receives the accumulator *by value*, and returns an inert
/// lazy adapter: nothing is pulled and the step function is not invoked
/// until the adapter is first asked for an output.
pub trait IterScan<Item>: Sized {
    /// The items the source will deliver, in order.
    spec fn seq(self) -> Seq<Item>;

    /// Thread an owned accumulator through the source, yielding the new
    /// accumulator after every step; a clone of it is retained for the next
    /// step.
    fn scan_clone<Compute, State>(self, initial: State, compute: Compute) -> (r: ScanClone<
        Item,
        Compute,
        State,
    >) where State: Clone, Compute: Fn(State, Item) -> State
        requires
            forall|s: State, x: Item| #[trigger] call_requires(compute, (s, x)),
        ensures
            r.wf(),
            r.remaining() == self.seq(),
            r.accum() == initial,
            r.step_fn() == compute,
            r.consumed() == Seq::<Item>::empty(),
            r.produced() == Seq::<State>::empty(),
            r.initial() == initial,
    ;

    /// Thread an owned accumulator through the source, yielding the new
    /// accumulator after every step; a copy of it is retained for the next
    /// step.
    fn scan_copy<Compute, State>(self, initial: State, compute: Compute) -> (r: ScanCopy<
        Item,
        Compute,
        State,
    >) where State: Copy, Compute: Fn(State, Item) -> State
        requires
            forall|s: State, x: Item| #[trigger] call_requires(compute, (s, x)),
        ensures
            r.wf(),
            r.remaining() == self.seq(),
            r.accum() == initial,
            r.step_fn() == compute,
            r.consumed() == Seq::<Item>::empty(),
            r.produced() == Seq::<State>::empty(),
            r.initial() == initial,
    ;

    /// Thread an owned accumulator through the source with a step function
    /// that returns a (new accumulator, mapped output) pair; the whole pair
    /// is yielded and a clone of the accumulator half is retained.
    fn scan_state_clone<Compute, State, Value>(self, initial: State, compute: Compute) -> (r:
        ScanStateClone<Item, Compute, State, Value>) where
        State: Clone,
        Compute: Fn(State, Item) -> (State, Value),

        requires
            forall|s: State, x: Item| #[trigger] call_requires(compute, (s, x)),
        ensures
            r.wf(),
            r.remaining() == self.seq(),
            r.accum() == initial,
            r.step_fn() == compute,
            r.consumed() == Seq::<Item>::empty(),
            r.produced() == Seq::<(State, Value)>::empty(),
            r.initial() == initial,
    ;

    /// Thread an owned accumulator through the source with a step function
    /// that returns a (new accumulator, mapped output) pair; the whole pair
    /// is yielded and a copy of the accumulator half is retained.
    fn scan_state_copy<Compute, State, Value>(self, initial: State, compute: Compute) -> (r:
        ScanStateCopy<Item, Compute, State, Value>) where
        State: Copy,
        Compute: Fn(State, Item) -> (State, Value),

        requires
            forall|s: State, x: Item| #[trigger] call_requires(compute, (s, x)),
        ensures
            r.wf(),
            r.remaining() == self.seq(),
            r.accum() == initial,
            r.step_fn() == compute,
            r.consumed() == Seq::<Item>::empty(),
            r.produced() == Seq::<(State, Value)>::empty(),
            r.initial() == initial,
    ;

    /// Thread an owned accumulator through the source with a step function
    /// that returns the (retained accumulator, yielded output) pair
    /// directly; the pair is forwarded unchanged, so the accumulator type
    /// need support neither clone nor copy.
    fn scan_with_tuple<Compute, State, Value>(self, initial: State, compute: Compute) -> (r:
        ScanWithTuple<Item, Compute, State, Value>) where
        Compute: Fn(State, Item) -> (State, Value),

        requires
            forall|s: State, x: Item| #[trigger] call_requires(compute, (s, x)),
        ensures
            r.wf(),
            r.remaining() == self.seq(),
            r.accum() == initial,
            r.step_fn() == compute,
            r.consumed() == Seq::<Item>::empty(),
            r.produced() == Seq::<Value>::empty(),
            r.initial() == initial,
    ;
}

impl<Item> IterScan<Item> for Vec<Item> {
    open spec fn seq(self) -> Seq<Item> {
        self@
    }

    fn scan_clone<Compute, State>(self, initial: State, compute: Compute) -> (r: ScanClone<
        Item,
        Compute,
        State,
    >) where State: Clone, Compute: Fn(State, Item) -> State {
        ScanClone::new(self, initial, compute)
    }

    fn scan_copy<Compute, State>(self, initial: State, compute: Compute) -> (r: ScanCopy<
        Item,
        Compute,
        State,
    >) where State: Copy, Compute: Fn(State, Item) -> State {
        ScanCopy::new(self, initial, compute)
    }

    fn scan_state_clone<Compute, State, Value>(self, initial: State, compute: Compute) -> (r:
        ScanStateClone<Item, Compute, State, Value>) where
        State: Clone,
        Compute: Fn(State, Item) -> (State, Value),
     {
        ScanStateClone::new(self, initial, compute)
    }

    fn scan_state_copy<Compute, State, Value>(self, initial: State, compute: Compute) -> (r:
        ScanStateCopy<Item, Compute, State, Value>) where
        State: Copy,
        Compute: Fn(State, Item) -> (State, Value),
     {
        ScanStateCopy::new(self, initial, compute)
    }

    fn scan_with_tuple<Compute, State, Value>(self, initial: State, compute: Compute) -> (r:
        ScanWithTuple<Item, Compute, State, Value>) where
        Compute: Fn(State, Item) -> (State, Value),
     {
        ScanWithTuple::new(self, initial, compute)
    }
}

} // verus!
