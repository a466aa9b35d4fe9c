//! Traversable functors: functors that can be folded and traversed.

use crate::family_pattern::ty_constructor::TC1;
use crate::family_pattern::typeclasses::applicative::Applicative;
use crate::family_pattern::typeclasses::applicative::ApplicativeMut;
use crate::family_pattern::typeclasses::applicative::ApplicativeOnce;
use crate::family_pattern::typeclasses::foldable::Foldable;
use crate::family_pattern::typeclasses::functor::Functor;
use crate::family_pattern::typeclasses::functor::FunctorMut;
use crate::family_pattern::typeclasses::functor::FunctorOnce;
use crate::family_pattern::typeclasses::traverse::Traverse;
use crate::family_pattern::typeclasses::traverse::TraverseMut;
use crate::family_pattern::typeclasses::traverse::TraverseOnce;
use vstd::prelude::*;

verus! {

/// Constructors whose values of `A` can be mapped to values of `B`,
/// folded, and traversed into `G`, in the `Fn` tier.
pub trait Traversable<G, A, B>: Functor<A, B> + Foldable<A> + Traverse<G, A, B> where
    G: ApplicativeOnce<B, TC1<Self, B>, TC1<Self, B>>,
 {

}

/// The same in the `FnMut` tier.
pub trait TraversableMut<G, A, B>: FunctorMut<A, B> + Foldable<A> + TraverseMut<G, A, B> where
    G: ApplicativeMut<B, TC1<Self, B>, TC1<Self, B>>,
 {

}

/// The same in the `FnOnce` tier.
pub trait TraversableOnce<G, A, B>: FunctorOnce<A, B> + Foldable<A> + TraverseOnce<G, A, B> where
    G: Applicative<B, TC1<Self, B>, TC1<Self, B>>,
 {

}

impl<G, A, B, T> Traversable<G, A, B> for T where
    G: ApplicativeOnce<B, TC1<T, B>, TC1<T, B>>,
    T: Functor<A, B> + Foldable<A> + Traverse<G, A, B>,
 {
}

impl<G, A, B, T> TraversableMut<G, A, B> for T where
    G: ApplicativeMut<B, TC1<T, B>, TC1<T, B>>,
    T: FunctorMut<A, B> + Foldable<A> + TraverseMut<G, A, B>,
 {
}

impl<G, A, B, T> TraversableOnce<G, A, B> for T where
    G: Applicative<B, TC1<T, B>, TC1<T, B>>,
    T: FunctorOnce<A, B> + Foldable<A> + TraverseOnce<G, A, B>,
 {
}

} // verus!
