//! Functors: constructors whose values can be mapped over.

use crate::family_pattern::ty_constructor::ConstructableTy1;
use crate::family_pattern::ty_constructor::ConstructableTyExt1;
use crate::family_pattern::ty_constructor::ConstructableTySyntax1;
use crate::family_pattern::ty_constructor::elements_of;
use crate::family_pattern::ty_constructor::ForAllConstructedTy1;
use crate::family_pattern::ty_constructor::shape_of;
use crate::family_pattern::ty_constructor::TC1;
use crate::family_pattern::typeclasses::outcomes::accepts_all;
use crate::family_pattern::typeclasses::outcomes::computes;
use crate::family_pattern::typeclasses::outcomes::results_of;
use crate::func::constant;
use vstd::prelude::*;

verus! {

/// Mapping with a function that can be called through a shared borrow.
///
/// Mapping keeps the shape of a value and replaces each element by a
/// result of the function on it.
pub trait Functor<A, B>: ForAllConstructedTy1<A> + ForAllConstructedTy1<B> {
    /// Applies `f` to each element of `fa`.
    fn fmap<F: Fn(A) -> B>(fa: TC1<Self, A>, f: F) -> (fb: TC1<Self, B>)
        requires
            accepts_all(f, elements_of::<Self, A>(fa)),
        ensures
            results_of(f, elements_of::<Self, A>(fa), elements_of::<Self, B>(fb)),
            shape_of::<Self, B>(fb) == shape_of::<Self, A>(fa),
            fb == refilled::<Self, A, B>(fa, elements_of::<Self, B>(fb)),
    ;

    /// Replaces each element of `fa` by a clone of `b`.
    fn fconst(fa: TC1<Self, A>, b: B) -> (fb: TC1<Self, B>) where B: Clone
        ensures
            elements_of::<Self, B>(fb).len() == elements_of::<Self, A>(fa).len(),
            forall|i: int|
                0 <= i < elements_of::<Self, B>(fb).len() ==> cloned(
                    b,
                    #[trigger] elements_of::<Self, B>(fb)[i],
                ),
            shape_of::<Self, B>(fb) == shape_of::<Self, A>(fa),
            fb == refilled::<Self, A, B>(fa, elements_of::<Self, B>(fb)),
    {
        Self::fmap(fa, constant(b))
    }
}

/// Replaces each element of `fa` by the unit value: what is left is the
/// shape of `fa`.
pub fn fvoid<T: Functor<A, ()>, A>(fa: TC1<T, A>) -> (fu: TC1<T, ()>)
    ensures
        shape_of::<T, ()>(fu) == shape_of::<T, A>(fa),
        elements_of::<T, ()>(fu) == Seq::new(
            elements_of::<T, A>(fa).len(),
            |i: int| (),
        ),
{
    let fu = T::fconst(fa, ());
    assert(elements_of::<T, ()>(fu) =~= Seq::new(
        elements_of::<T, A>(fa).len(),
        |i: int| (),
    ));
    fu
}

/// Mapping with a function that can be called through a unique borrow.
pub trait FunctorMut<A, B>: ForAllConstructedTy1<A> + ForAllConstructedTy1<B> {
    /// Applies `f` to each element of `fa`.
    fn fmap_mut<F: FnMut(A) -> B>(fa: TC1<Self, A>, f: F) -> (fb: TC1<Self, B>)
        requires
            accepts_all(f, elements_of::<Self, A>(fa)),
        ensures
            results_of(f, elements_of::<Self, A>(fa), elements_of::<Self, B>(fb)),
            shape_of::<Self, B>(fb) == shape_of::<Self, A>(fa),
            fb == refilled::<Self, A, B>(fa, elements_of::<Self, B>(fb)),
    ;
}

/// Mapping with a function that can be called once.
pub trait FunctorOnce<A, B>: ForAllConstructedTy1<A> + ForAllConstructedTy1<B> {
    /// Applies `f` to each element of `fa`.
    fn fmap_once<F: FnOnce(A) -> B>(fa: TC1<Self, A>, f: F) -> (fb: TC1<Self, B>)
        requires
            accepts_all(f, elements_of::<Self, A>(fa)),
        ensures
            results_of(f, elements_of::<Self, A>(fa), elements_of::<Self, B>(fb)),
            shape_of::<Self, B>(fb) == shape_of::<Self, A>(fa),
            fb == refilled::<Self, A, B>(fa, elements_of::<Self, B>(fb)),
    ;
}

/// What can be mapped with a function called once can be mapped with one
/// called through a unique borrow.
impl<A, B, T: FunctorOnce<A, B>> FunctorMut<A, B> for T {
    fn fmap_mut<F: FnMut(A) -> B>(fa: TC1<Self, A>, f: F) -> (fb: TC1<Self, B>) {
        T::fmap_once(fa, f)
    }
}

/// What can be mapped with a function called through a unique borrow can
/// be mapped with one called through a shared borrow.
impl<A, B, T: FunctorMut<A, B>> Functor<A, B> for T {
    fn fmap<F: Fn(A) -> B>(fa: TC1<Self, A>, f: F) -> (fb: TC1<Self, B>) {
        T::fmap_mut(fa, f)
    }
}

/// The value of the shape of `fa` whose elements are `bs`.
pub open spec fn refilled<T: ForAllConstructedTy1<A> + ForAllConstructedTy1<B> + ?Sized, A, B>(
    fa: TC1<T, A>,
    bs: Seq<B>,
) -> TC1<T, B> {
    <T as ForAllConstructedTy1<B>>::assembled(shape_of::<T, A>(fa), bs)
}

/// The value that mapping the mathematical function `g` over `fa` gives.
pub open spec fn mapped<T: ForAllConstructedTy1<A> + ForAllConstructedTy1<B> + ?Sized, A, B>(
    fa: TC1<T, A>,
    g: spec_fn(A) -> B,
) -> TC1<T, B> {
    refilled::<T, A, B>(fa, elements_of::<T, A>(fa).map_values(g))
}

/// Whatever mapping `f` over `fa` returns is `fa` refilled with the
/// results of `f`.
pub proof fn lemma_fmap_refills<T: ForAllConstructedTy1<A> + ForAllConstructedTy1<B> + ?Sized, A, B>(
    fa: TC1<T, A>,
    fb: TC1<T, B>,
)
    requires
        shape_of::<T, B>(fb) == shape_of::<T, A>(fa),
    ensures
        fb == refilled::<T, A, B>(fa, elements_of::<T, B>(fb)),
{
    <T as ForAllConstructedTy1<B>>::lemma_assembled(fb);
}

/// Mapping an executable function that computes `g` gives what mapping `g`
/// gives.
pub proof fn lemma_fmap_computes<
    T: ForAllConstructedTy1<A> + ForAllConstructedTy1<B> + ?Sized,
    A,
    B,
    F: FnOnce(A) -> B,
>(fa: TC1<T, A>, f: F, g: spec_fn(A) -> B, fb: TC1<T, B>)
    requires
        computes(f, g),
        results_of(f, elements_of::<T, A>(fa), elements_of::<T, B>(fb)),
        shape_of::<T, B>(fb) == shape_of::<T, A>(fa),
    ensures
        fb == mapped::<T, A, B>(fa, g),
{
    <T as ForAllConstructedTy1<B>>::lemma_assembled(fb);
    assert(elements_of::<T, B>(fb) =~= elements_of::<T, A>(fa).map_values(g));
}

/// What mapping gives has the shape of what was mapped over, and holds the
/// values of the function on its elements.
pub proof fn lemma_mapped<T: ForAllConstructedTy1<A> + ForAllConstructedTy1<B> + ?Sized, A, B>(
    fa: TC1<T, A>,
    g: spec_fn(A) -> B,
)
    ensures
        shape_of::<T, B>(mapped::<T, A, B>(fa, g)) == shape_of::<T, A>(fa),
        elements_of::<T, B>(mapped::<T, A, B>(fa, g)) == elements_of::<T, A>(fa).map_values(g),
{
    <T as ForAllConstructedTy1<A>>::lemma_assembled(fa);
    <T as ForAllConstructedTy1<B>>::lemma_taken_apart(
        shape_of::<T, A>(fa),
        elements_of::<T, A>(fa).map_values(g),
    );
}

/// The first functor law, for every constructor: mapping the identity
/// changes nothing.
pub proof fn lemma_map_identity<T: ForAllConstructedTy1<A> + ?Sized, A>(x: TC1<T, A>)
    ensures
        mapped::<T, A, A>(x, |a: A| a) == x,
{
    T::lemma_assembled(x);
    assert(T::elements(x).map_values(|a: A| a) =~= T::elements(x));
}

/// The second functor law, for every constructor: mapping `f` and then `g`
/// is mapping the composition of `g` and `f`.
pub proof fn lemma_map_composition<
    T: ForAllConstructedTy1<A> + ForAllConstructedTy1<B> + ForAllConstructedTy1<C> + ?Sized,
    A,
    B,
    C,
>(x: TC1<T, A>, f: spec_fn(A) -> B, g: spec_fn(B) -> C)
    ensures
        mapped::<T, B, C>(mapped::<T, A, B>(x, f), g) == mapped::<T, A, C>(x, |a: A| g(f(a))),
{
    lemma_mapped::<T, A, B>(x, f);
    assert(elements_of::<T, A>(x).map_values(f).map_values(g) =~= elements_of::<T, A>(x).map_values(|a: A| g(f(a))));
}

/// Mapping as a method of the value that is mapped over, for the `Fn` tier.
pub trait FunctorSyntax<T, A>: ConstructableTySyntax1<T, A> where
    T: ForAllConstructedTy1<A, ConstructedType = Self>,
 {
    /// Applies `f` to each element of `self`.
    fn fmap<B, F: Fn(A) -> B>(self, f: F) -> (fb: TC1<T, B>) where T: Functor<A, B>
        requires
            accepts_all(f, elements_of::<T, A>(self)),
        ensures
            results_of(f, elements_of::<T, A>(self), elements_of::<T, B>(fb)),
            shape_of::<T, B>(fb) == shape_of::<T, A>(self),
            fb == refilled::<T, A, B>(self, elements_of::<T, B>(fb)),
    ;

    /// Replaces each element of `self` by a clone of `b`.
    fn fconst<B: Clone>(self, b: B) -> (fb: TC1<T, B>) where T: Functor<A, B>
        ensures
            elements_of::<T, B>(fb).len() == elements_of::<T, A>(self).len(),
            forall|i: int|
                0 <= i < elements_of::<T, B>(fb).len() ==> cloned(
                    b,
                    #[trigger] elements_of::<T, B>(fb)[i],
                ),
            shape_of::<T, B>(fb) == shape_of::<T, A>(self),
            fb == refilled::<T, A, B>(self, elements_of::<T, B>(fb)),
    ;

    /// Replaces each element of `self` by the unit value.
    fn fvoid(self) -> (fu: TC1<T, ()>) where T: Functor<A, ()>
        ensures
            shape_of::<T, ()>(fu) == shape_of::<T, A>(self),
            elements_of::<T, ()>(fu) == Seq::new(
                elements_of::<T, A>(self).len(),
                |i: int| (),
            ),
    ;
}

/// Mapping as a method of the value that is mapped over, for the `FnMut`
/// tier.
pub trait FunctorMutSyntax<T, A>: ConstructableTySyntax1<T, A> where
    T: ForAllConstructedTy1<A, ConstructedType = Self>,
 {
    /// Applies `f` to each element of `self`.
    fn fmap_mut<B, F: FnMut(A) -> B>(self, f: F) -> (fb: TC1<T, B>) where T: FunctorMut<A, B>
        requires
            accepts_all(f, elements_of::<T, A>(self)),
        ensures
            results_of(f, elements_of::<T, A>(self), elements_of::<T, B>(fb)),
            shape_of::<T, B>(fb) == shape_of::<T, A>(self),
            fb == refilled::<T, A, B>(self, elements_of::<T, B>(fb)),
    ;
}

/// Mapping as a method of the value that is mapped over, for the `FnOnce`
/// tier.
pub trait FunctorOnceSyntax<T, A>: ConstructableTySyntax1<T, A> where
    T: ForAllConstructedTy1<A, ConstructedType = Self>,
 {
    /// Applies `f` to each element of `self`.
    fn fmap_once<B, F: FnOnce(A) -> B>(self, f: F) -> (fb: TC1<T, B>) where T: FunctorOnce<A, B>
        requires
            accepts_all(f, elements_of::<T, A>(self)),
        ensures
            results_of(f, elements_of::<T, A>(self), elements_of::<T, B>(fb)),
            shape_of::<T, B>(fb) == shape_of::<T, A>(self),
            fb == refilled::<T, A, B>(self, elements_of::<T, B>(fb)),
    ;
}

impl<T, A, FA> FunctorSyntax<T, A> for FA where
    T: ForAllConstructedTy1<A, ConstructedType = FA>,
    FA: ConstructableTy1<Constructor = T, GenericParameter1 = A>,
 {
    fn fmap<B, F: Fn(A) -> B>(self, f: F) -> (fb: TC1<T, B>) where T: Functor<A, B> {
        <T as Functor<A, B>>::fmap(self.reify1(), f)
    }

    fn fconst<B: Clone>(self, b: B) -> (fb: TC1<T, B>) where T: Functor<A, B> {
        <T as Functor<A, B>>::fconst(self.reify1(), b)
    }

    fn fvoid(self) -> (fu: TC1<T, ()>) where T: Functor<A, ()> {
        fvoid::<T, A>(self.reify1())
    }
}

impl<T, A, FA> FunctorMutSyntax<T, A> for FA where
    T: ForAllConstructedTy1<A, ConstructedType = FA>,
    FA: ConstructableTy1<Constructor = T, GenericParameter1 = A>,
 {
    fn fmap_mut<B, F: FnMut(A) -> B>(self, f: F) -> (fb: TC1<T, B>) where T: FunctorMut<A, B> {
        <T as FunctorMut<A, B>>::fmap_mut(self.reify1(), f)
    }
}

impl<T, A, FA> FunctorOnceSyntax<T, A> for FA where
    T: ForAllConstructedTy1<A, ConstructedType = FA>,
    FA: ConstructableTy1<Constructor = T, GenericParameter1 = A>,
 {
    fn fmap_once<B, F: FnOnce(A) -> B>(self, f: F) -> (fb: TC1<T, B>) where T: FunctorOnce<A, B> {
        <T as FunctorOnce<A, B>>::fmap_once(self.reify1(), f)
    }
}

} // verus!
