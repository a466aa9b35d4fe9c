//! Monads: applicative functors with sequential composition.

use crate::family_pattern::ty_constructor::ConstructableTy1;
use crate::family_pattern::ty_constructor::ConstructableTyExt1;
use crate::family_pattern::ty_constructor::ConstructableTySyntax1;
use crate::family_pattern::ty_constructor::elements_of;
use crate::family_pattern::ty_constructor::ForAllConstructedTy1;
use crate::family_pattern::ty_constructor::shape_of;
use crate::family_pattern::ty_constructor::TC1;
use crate::family_pattern::typeclasses::applicative::Applicative;
use crate::family_pattern::typeclasses::applicative::ApplicativeMut;
use crate::family_pattern::typeclasses::applicative::ApplicativeOnce;
use crate::family_pattern::typeclasses::bind::Bind;
use crate::family_pattern::typeclasses::bind::BindMut;
use crate::family_pattern::typeclasses::bind::BindOnce;
use crate::family_pattern::typeclasses::bind::bound;
use crate::family_pattern::typeclasses::functor::Functor;
use crate::family_pattern::typeclasses::pure::Pure;
use std::convert::Infallible;
use std::marker::PhantomData;
use std::ops::ControlFlow;
use vstd::prelude::*;

verus! {

/// Applicative functors whose values of `A` can be continued by functions
/// into values of `C`, in the `Fn` tier.
pub trait Monad<A, B, C>: Applicative<A, B, C> + Bind<A, C> {

}

/// The same in the `FnMut` tier.
pub trait MonadMut<A, B, C>: ApplicativeMut<A, B, C> + BindMut<A, C> {

}

/// The same in the `FnOnce` tier.
pub trait MonadOnce<A, B, C>: ApplicativeOnce<A, B, C> + BindOnce<A, C> {

}

impl<A, B, C, T: Applicative<A, B, C> + Bind<A, C>> Monad<A, B, C> for T {
}

impl<A, B, C, T: ApplicativeMut<A, B, C> + BindMut<A, C>> MonadMut<A, B, C> for T {
}

impl<A, B, C, T: ApplicativeOnce<A, B, C> + BindOnce<A, C>> MonadOnce<A, B, C> for T {
}

/// The monad laws, which every instance has to prove.
pub trait MonadLaws<A, B, C>: Sized + Pure<A> + Pure<B> + Bind<A, B> + Bind<B, C> + Bind<A, C> + Bind<
    B,
    B,
> {
    /// Binding a function to a wrapped value is applying it to the value.
    proof fn lemma_bind_pure(a: A, k: spec_fn(A) -> TC1<Self, B>)
        ensures
            bound::<Self, A, B>(<Self as Pure<A>>::unit(a), k) == k(a),
    ;

    /// Binding `pure` changes nothing.
    proof fn lemma_bind_unit(x: TC1<Self, B>)
        ensures
            bound::<Self, B, B>(x, |b: B| <Self as Pure<B>>::unit(b)) == x,
    ;

    /// Binding `f` and then `g` is binding the function that applies `f`
    /// and binds `g` to the result.
    proof fn lemma_bind_associative(
        x: TC1<Self, A>,
        f: spec_fn(A) -> TC1<Self, B>,
        g: spec_fn(B) -> TC1<Self, C>,
    )
        ensures
            bound::<Self, B, C>(bound::<Self, A, B>(x, f), g) == bound::<Self, A, C>(
                x,
                |a: A| bound::<Self, B, C>(f(a), g),
            ),
    ;
}

/// Constructors whose values either go on with a value or stop.
///
/// A value that stops holds no value of `A`, so it has a counterpart, of
/// the same shape, at the type with the argument `Infallible`: the residual.
pub trait MonadTry<A>: Pure<A> + Functor<Infallible, A> {
    /// Tells whether `ma` goes on, and with what value, or stops, and with
    /// what residual.
    fn into_control_flow(ma: TC1<Self, A>) -> (flow: ControlFlow<TC1<Self, Infallible>, A>)
        ensures
            match flow {
                ControlFlow::Continue(a) => ma == <Self as Pure<A>>::unit(a),
                ControlFlow::Break(residual) => {
                    &&& elements_of::<Self, Infallible>(residual).len() == 0
                    &&& shape_of::<Self, Infallible>(residual)
                        == shape_of::<Self, A>(ma)
                },
            },
    ;
}

/// A value of a [`MonadTry`] constructor, held to be branched on: either
/// its value is taken out and the computation goes on, or the computation
/// stops with the residual.
pub struct MonadControlFlow<M: MonadTry<A>, A>(PhantomData<M>, PhantomData<A>, TC1<M, A>);

/// Gives a value of any type for a value of `core::convert::Infallible`.
/// Nothing is claimed of the result: `Infallible` has no values, so the
/// function is never called.
#[verifier::external_body]
fn absurd<A>(never: Infallible) -> A {
    match never {

    }
}

impl<M: MonadTry<A>, A> MonadControlFlow<M, A> {
    /// The value that is held.
    pub closed spec fn inner(self) -> TC1<M, A> {
        self.2
    }

    /// Holds the value `ma`.
    #[must_use]
    pub fn new<MA>(ma: MA) -> (r: Self) where
        MA: ConstructableTySyntax1<M, A>,
        M: ForAllConstructedTy1<A, ConstructedType = MA>,

        ensures
            r.inner() == ma,
    {
        Self(PhantomData, PhantomData, ma.reify1())
    }

    /// Holds the value that wraps `output`: a computation that goes on
    /// with `output`.
    pub fn from_output(output: A) -> (r: Self)
        ensures
            r.inner() == <M as Pure<A>>::unit(output),
    {
        Self(PhantomData, PhantomData, <M as Pure<A>>::pure(output))
    }

    /// Tells whether the held value goes on, and with what value, or
    /// stops, and with what residual.
    pub fn branch(self) -> (flow: ControlFlow<TC1<M, Infallible>, A>)
        ensures
            match flow {
                ControlFlow::Continue(a) => self.inner() == <M as Pure<A>>::unit(a),
                ControlFlow::Break(residual) => {
                    &&& elements_of::<M, Infallible>(residual).len() == 0
                    &&& shape_of::<M, Infallible>(residual)
                        == shape_of::<M, A>(self.inner())
                },
            },
    {
        M::into_control_flow(self.2)
    }

    /// Holds the value of the shape of `residual`: a computation that has
    /// stopped. The residual is mapped over, with a function that is never
    /// called, rather than reinterpreted.
    pub fn from_residual(residual: TC1<M, Infallible>) -> (r: Self)
        ensures
            elements_of::<M, A>(r.inner()).len() == elements_of::<M, Infallible>(residual).len(),
            shape_of::<M, A>(r.inner()) == shape_of::<M, Infallible>(residual),
    {
        let never_called = |never: Infallible| -> (a: A) { absurd(never) };
        Self(PhantomData, PhantomData, <M as Functor<Infallible, A>>::fmap(residual, never_called))
    }
}

/// Holding a value to be branched on, as a method of the value.
pub trait MonadTrySyntax<M: MonadTry<A>, A>: ConstructableTySyntax1<M, A> where
    M: ForAllConstructedTy1<A, ConstructedType = Self>,
 {
    /// Holds `self` to be branched on.
    fn mtry(self) -> (r: MonadControlFlow<M, A>)
        ensures
            r.inner() == self,
    ;
}

impl<M: MonadTry<A>, A, MA> MonadTrySyntax<M, A> for MA where
    M: ForAllConstructedTy1<A, ConstructedType = MA>,
    MA: ConstructableTy1<Constructor = M, GenericParameter1 = A>,
 {
    fn mtry(self) -> (r: MonadControlFlow<M, A>) {
        MonadControlFlow::new(self)
    }
}

} // verus!
