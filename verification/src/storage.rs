//! Trusted contract for the in-place replacement primitive.
//!
//! The engine must move the accumulator out of its storage slot, run the step
//! function on it, and write the result back.  The accumulator type is fully
//! generic, so there is no placeholder value to park in the slot meanwhile;
//! the primitive below performs that take/compute/put sequence and promotes
//! any unwind of the closure to a process abort, so a half-updated slot is
//! never observable.

use vstd::prelude::*;

verus! {

/// Relies on `replace_with::replace_with_or_abort_and_return`: it moves the
/// value out of `dest`, applies `f` to it exactly once, writes the second
/// component of the result back into `dest`, and returns the first component.
/// If `f` unwinds, the process aborts before anything is observable, so the
/// contract only speaks of the normal return.
pub assume_specification<T, U, F: FnOnce(T) -> (U, T)>[ replace_with::replace_with_or_abort_and_return::<T, U, F> ](
    dest: &mut T,
    f: F,
) -> (r: U)
    requires
        call_requires(f, (*old(dest),)),
    ensures
        call_ensures(f, (*old(dest),), (r, *final(dest))),
;

} // verus!
