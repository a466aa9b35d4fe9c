//! Helpers for building functions.

use vstd::prelude::*;

verus! {

/// Creates the constant function of `value`: a function that accepts every
/// argument and returns a clone of `value` for each.
pub fn constant<A: Clone, B>(value: A) -> (f: impl Fn(B) -> A)
    ensures
        forall|b: B| #[trigger] f.requires((b, )),
        forall|b: B, a: A| #[trigger] f.ensures((b, ), a) ==> cloned(value, a),
{
    move |_b: B| -> (a: A)
        ensures
            cloned(value, a),
        { value.clone() }
}

} // verus!
