//! Lifting a bare value into a constructed type.

use crate::family_pattern::ty_constructor::ConstructableTySyntax1;
use crate::family_pattern::ty_constructor::ForAllConstructedTy1;
use crate::family_pattern::ty_constructor::TC1;
use vstd::prelude::*;

verus! {

/// Constructors that can wrap a value of type `A` in the plainest way.
pub trait Pure<A>: ForAllConstructedTy1<A> {
    /// The constructed value that holds `a` and nothing else.
    spec fn unit(a: A) -> TC1<Self, A>;

    /// What stands in for `a` holds `a` alone.
    proof fn lemma_unit_elements(a: A)
        ensures
            Self::elements(Self::unit(a)) == seq![a],
    ;

    /// Wraps `a`.
    fn pure(a: A) -> (ta: TC1<Self, A>)
        ensures
            ta == Self::unit(a),
    ;
}

/// `pure` as a method of the value to wrap: `a.pure::<Option<_>>()`.
pub trait PureSyntax<T: Pure<Self>>: Sized {
    /// Wraps `self` into the constructed type `TA`.
    fn pure<TA: ConstructableTySyntax1<T, Self>>(self) -> (ta: TC1<T, Self>) where
        T: ForAllConstructedTy1<Self, ConstructedType = TA>,

        ensures
            ta == T::unit(self),
    ;
}

impl<T: Pure<A>, A> PureSyntax<T> for A {
    fn pure<TA: ConstructableTySyntax1<T, A>>(self) -> (ta: TC1<T, A>) where
        T: ForAllConstructedTy1<A, ConstructedType = TA>,
     {
        T::pure(self)
    }
}

} // verus!
