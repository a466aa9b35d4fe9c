//! Semigroups: types with an associative way to combine two values.

use vstd::prelude::*;

verus! {

/// Types whose values can be combined, associatively.
pub trait Semigroup: Sized {
    /// The combination of two values.
    spec fn combined(self, other: Self) -> Self;

    /// Combining is associative.
    proof fn lemma_associative(a: Self, b: Self, c: Self)
        ensures
            a.combined(b).combined(c) == a.combined(b.combined(c)),
    ;

    /// Combines two values.
    #[must_use]
    fn scombine(self, other: Self) -> (r: Self)
        ensures
            r == self.combined(other),
    ;
}

} // verus!
