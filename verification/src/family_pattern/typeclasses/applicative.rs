//! Applicative functors: functors that can wrap a value and lift functions
//! of two arguments.

use crate::family_pattern::ty_constructor::TC1;
use crate::family_pattern::typeclasses::ap::Ap;
use crate::family_pattern::typeclasses::ap::ApMut;
use crate::family_pattern::typeclasses::ap::ApOnce;
use crate::family_pattern::typeclasses::ap::applied;
use crate::family_pattern::typeclasses::ap::lift2;
use crate::family_pattern::typeclasses::functor::Functor;
use crate::family_pattern::typeclasses::functor::FunctorMut;
use crate::family_pattern::typeclasses::functor::FunctorOnce;
use crate::family_pattern::typeclasses::pure::Pure;
use vstd::prelude::*;

verus! {

/// What lifting a function from `A` and `B` to `C` takes, in the `Fn`
/// tier: the three types can be wrapped, values of `A` can be mapped to
/// `C`, and functions of the two arguments can be lifted.
pub trait Applicative<A, B, C>: Functor<A, C> + Pure<A> + Pure<B> + Pure<C> + Ap<A, B, C> {

}

/// The same in the `FnMut` tier.
pub trait ApplicativeMut<A, B, C>: FunctorMut<A, C> + Pure<A> + Pure<B> + Pure<C> + ApMut<
    A,
    B,
    C,
> {

}

/// The same in the `FnOnce` tier.
pub trait ApplicativeOnce<A, B, C>: FunctorOnce<A, C> + Pure<A> + Pure<B> + Pure<C> + ApOnce<
    A,
    B,
    C,
> {

}

impl<A, B, C, T: Functor<A, C> + Pure<A> + Pure<B> + Pure<C> + Ap<A, B, C>> Applicative<
    A,
    B,
    C,
> for T {
}

impl<A, B, C, T: FunctorMut<A, C> + Pure<A> + Pure<B> + Pure<C> + ApMut<A, B, C>> ApplicativeMut<
    A,
    B,
    C,
> for T {
}

impl<
    A,
    B,
    C,
    T: FunctorOnce<A, C> + Pure<A> + Pure<B> + Pure<C> + ApOnce<A, B, C>,
> ApplicativeOnce<A, B, C> for T {
}

/// The applicative laws, which every instance has to prove.
pub trait ApplicativeLaws<A, B, C>: Sized + Pure<A> + Pure<B> + Pure<C> + Ap<A, B, C> + Pure<
    spec_fn(A) -> A,
> + Ap<spec_fn(A) -> A, A, A> {
    /// Applying the wrapped identity changes nothing.
    proof fn lemma_ap_identity(x: TC1<Self, A>)
        ensures
            applied::<Self, A, A>(<Self as Pure<spec_fn(A) -> A>>::unit(|a: A| a), x) == x,
    ;

    /// Lifting a function over two wrapped values wraps its result
    /// on them.
    proof fn lemma_lift_pure(a: A, b: B, g: spec_fn(A, B) -> C)
        ensures
            lift2::<Self, A, B, C>(
                <Self as Pure<A>>::unit(a),
                <Self as Pure<B>>::unit(b),
                g,
            ) == <Self as Pure<C>>::unit(g(a, b)),
    ;
}

} // verus!
