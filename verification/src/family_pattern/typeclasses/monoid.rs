//! Monoids: semigroups with an identity.

use crate::family_pattern::typeclasses::semigroup::Semigroup;
use vstd::prelude::*;

verus! {

/// Semigroups with a value that changes nothing when combined, on either
/// side.
pub trait Monoid: Semigroup {
    /// The identity of the combination.
    spec fn empty() -> Self;

    /// The identity changes nothing on the left.
    proof fn lemma_left_identity(a: Self)
        ensures
            Self::empty().combined(a) == a,
    ;

    /// The identity changes nothing on the right.
    proof fn lemma_right_identity(a: Self)
        ensures
            a.combined(Self::empty()) == a,
    ;

    /// Returns the identity.
    fn mempty() -> (r: Self)
        ensures
            r == Self::empty(),
    ;
}

} // verus!
