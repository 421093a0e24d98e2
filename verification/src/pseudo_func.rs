//! Pseudo stateless function.

use vstd::prelude::*;

verus! {

/// Pseudo stateless function.
///
/// Unlike a function pointer, this forces static dispatching: the strategy is
/// fixed by the choice of the implementing type, so selecting it costs no
/// more than a direct call.
///
/// `post` says what may come out of `exec` for a given argument; every
/// implementation proves its `exec` against it.
pub trait PseudoFunc<X, Y> {
    /// The relation between the argument and the result of [`Self::exec`].
    spec fn post(x: X, y: Y) -> bool;

    /// Apply the strategy to `x`.
    fn exec(x: X) -> (y: Y)
        ensures
            Self::post(x, y),
    ;
}

} // verus!
