//! Traversing: visiting the elements of a value with a function that
//! returns values of another constructor, and turning the value of
//! results inside out.

use crate::family_pattern::ty_constructor::ConstructableTy1;
use crate::family_pattern::ty_constructor::ConstructableTyExt1;
use crate::family_pattern::ty_constructor::ConstructableTySyntax1;
use crate::family_pattern::ty_constructor::elements_of;
use crate::family_pattern::ty_constructor::ForAllConstructedTy1;
use crate::family_pattern::ty_constructor::TC1;
use crate::family_pattern::typeclasses::applicative::Applicative;
use crate::family_pattern::typeclasses::applicative::ApplicativeMut;
use crate::family_pattern::typeclasses::applicative::ApplicativeOnce;
use crate::family_pattern::typeclasses::outcomes::accepts_all;
use crate::family_pattern::typeclasses::outcomes::results_of;
use vstd::prelude::*;

verus! {

/// Traversing with a function that can be called through a shared borrow.
///
/// The function returns values of the constructor `G`; traversing a value
/// of `A` gives a value of `G` that holds values of `B` of the shape of
/// the traversed one. How the results of the function are put together is
/// for the instance to say.
pub trait Traverse<G, A, B>: ForAllConstructedTy1<A> + ForAllConstructedTy1<B> where
    G: ApplicativeOnce<B, TC1<Self, B>, TC1<Self, B>>,
 {
    /// The value that traversing `ta` gives when the function returns
    /// `parts` for its elements.
    spec fn traversed(ta: TC1<Self, A>, parts: Seq<TC1<G, B>>) -> TC1<G, TC1<Self, B>>;

    /// Applies `f` to each element of `ta` and puts the results together.
    fn traverse<F: Fn(A) -> TC1<G, B>>(ta: TC1<Self, A>, f: F) -> (r: TC1<G, TC1<Self, B>>)
        requires
            accepts_all(f, elements_of::<Self, A>(ta)),
        ensures
            exists|parts: Seq<TC1<G, B>>|
                results_of(f, elements_of::<Self, A>(ta), parts) && r
                    == #[trigger] Self::traversed(ta, parts),
    ;
}

/// Traversing with a function that can be called through a unique borrow.
///
/// The function returns values of the constructor `G`; traversing a value
/// of `A` gives a value of `G` that holds values of `B` of the shape of
/// the traversed one. How the results of the function are put together is
/// for the instance to say.
pub trait TraverseMut<G, A, B>: ForAllConstructedTy1<A> + ForAllConstructedTy1<B> where
    G: ApplicativeMut<B, TC1<Self, B>, TC1<Self, B>>,
 {
    /// The value that traversing `ta` gives when the function returns
    /// `parts` for its elements.
    spec fn traversed(ta: TC1<Self, A>, parts: Seq<TC1<G, B>>) -> TC1<G, TC1<Self, B>>;

    /// Applies `f` to each element of `ta` and puts the results together.
    fn traverse_mut<F: FnMut(A) -> TC1<G, B>>(ta: TC1<Self, A>, f: F) -> (r: TC1<G, TC1<Self, B>>)
        requires
            accepts_all(f, elements_of::<Self, A>(ta)),
        ensures
            exists|parts: Seq<TC1<G, B>>|
                results_of(f, elements_of::<Self, A>(ta), parts) && r
                    == #[trigger] Self::traversed(ta, parts),
    ;
}

/// Traversing with a function that can be called once.
///
/// The function returns values of the constructor `G`; traversing a value
/// of `A` gives a value of `G` that holds values of `B` of the shape of
/// the traversed one. How the results of the function are put together is
/// for the instance to say.
pub trait TraverseOnce<G, A, B>: ForAllConstructedTy1<A> + ForAllConstructedTy1<B> where
    G: Applicative<B, TC1<Self, B>, TC1<Self, B>>,
 {
    /// The value that traversing `ta` gives when the function returns
    /// `parts` for its elements.
    spec fn traversed(ta: TC1<Self, A>, parts: Seq<TC1<G, B>>) -> TC1<G, TC1<Self, B>>;

    /// Applies `f` to each element of `ta` and puts the results together.
    fn traverse_once<F: FnOnce(A) -> TC1<G, B>>(ta: TC1<Self, A>, f: F) -> (r: TC1<G, TC1<Self, B>>)
        requires
            accepts_all(f, elements_of::<Self, A>(ta)),
        ensures
            exists|parts: Seq<TC1<G, B>>|
                results_of(f, elements_of::<Self, A>(ta), parts) && r
                    == #[trigger] Self::traversed(ta, parts),
    ;
}

/// An instance of `TraverseOnce` is an instance of `TraverseMut`.
impl<G, A, B, TC> TraverseMut<G, A, B> for TC where
    G: ApplicativeMut<B, TC1<TC, B>, TC1<TC, B>>,
    TC: TraverseOnce<G, A, B>,
 {
    open spec fn traversed(ta: TC1<Self, A>, parts: Seq<TC1<G, B>>) -> TC1<G, TC1<Self, B>> {
        <TC as TraverseOnce<G, A, B>>::traversed(ta, parts)
    }

    fn traverse_mut<F: FnMut(A) -> TC1<G, B>>(ta: TC1<Self, A>, f: F) -> (r: TC1<G, TC1<Self, B>>) {
        let r = <TC as TraverseOnce<G, A, B>>::traverse_once(ta, f);
        proof {
            let parts = choose|parts: Seq<TC1<G, B>>|
                results_of(f, elements_of::<Self, A>(ta), parts) && r
                    == #[trigger] <TC as TraverseOnce<G, A, B>>::traversed(ta, parts);
            assert(r == <TC as TraverseMut<G, A, B>>::traversed(ta, parts));
        }
        r
    }
}

/// An instance of `TraverseMut` is an instance of `Traverse`.
impl<G, A, B, TC> Traverse<G, A, B> for TC where
    G: ApplicativeOnce<B, TC1<TC, B>, TC1<TC, B>>,
    TC: TraverseMut<G, A, B>,
 {
    open spec fn traversed(ta: TC1<Self, A>, parts: Seq<TC1<G, B>>) -> TC1<G, TC1<Self, B>> {
        <TC as TraverseMut<G, A, B>>::traversed(ta, parts)
    }

    fn traverse<F: Fn(A) -> TC1<G, B>>(ta: TC1<Self, A>, f: F) -> (r: TC1<G, TC1<Self, B>>) {
        let r = <TC as TraverseMut<G, A, B>>::traverse_mut(ta, f);
        proof {
            let parts = choose|parts: Seq<TC1<G, B>>|
                results_of(f, elements_of::<Self, A>(ta), parts) && r
                    == #[trigger] <TC as TraverseMut<G, A, B>>::traversed(ta, parts);
            assert(r == <TC as Traverse<G, A, B>>::traversed(ta, parts));
        }
        r
    }
}

/// `traverse` as a method of the value that is traversed.
pub trait TraverseSyntax<TC, A>: ConstructableTySyntax1<TC, A> where
    TC: ForAllConstructedTy1<A, ConstructedType = Self>,
 {
    /// Applies `f` to each element of `self` and puts the results
    /// together.
    fn traverse<G, B, F: Fn(A) -> TC1<G, B>>(self, f: F) -> (r: TC1<G, TC1<TC, B>>) where
        TC: Traverse<G, A, B>,
        G: ApplicativeOnce<B, TC1<TC, B>, TC1<TC, B>>,

        requires
            accepts_all(f, elements_of::<TC, A>(self)),
        ensures
            exists|parts: Seq<TC1<G, B>>|
                results_of(f, elements_of::<TC, A>(self), parts) && r
                    == #[trigger] <TC as Traverse<G, A, B>>::traversed(self, parts),
    ;
}

impl<TC, A, FA> TraverseSyntax<TC, A> for FA where
    TC: ForAllConstructedTy1<A, ConstructedType = FA>,
    FA: ConstructableTy1<Constructor = TC, GenericParameter1 = A>,
 {
    fn traverse<G, B, F: Fn(A) -> TC1<G, B>>(self, f: F) -> (r: TC1<G, TC1<TC, B>>) where
        TC: Traverse<G, A, B>,
        G: ApplicativeOnce<B, TC1<TC, B>, TC1<TC, B>>,
     {
        <TC as Traverse<G, A, B>>::traverse(self.reify1(), f)
    }
}

/// `traverse_mut` as a method of the value that is traversed.
pub trait TraverseMutSyntax<TC, A>: ConstructableTySyntax1<TC, A> where
    TC: ForAllConstructedTy1<A, ConstructedType = Self>,
 {
    /// Applies `f` to each element of `self` and puts the results
    /// together.
    fn traverse_mut<G, B, F: FnMut(A) -> TC1<G, B>>(self, f: F) -> (r: TC1<G, TC1<TC, B>>) where
        TC: TraverseMut<G, A, B>,
        G: ApplicativeMut<B, TC1<TC, B>, TC1<TC, B>>,

        requires
            accepts_all(f, elements_of::<TC, A>(self)),
        ensures
            exists|parts: Seq<TC1<G, B>>|
                results_of(f, elements_of::<TC, A>(self), parts) && r
                    == #[trigger] <TC as TraverseMut<G, A, B>>::traversed(self, parts),
    ;
}

impl<TC, A, FA> TraverseMutSyntax<TC, A> for FA where
    TC: ForAllConstructedTy1<A, ConstructedType = FA>,
    FA: ConstructableTy1<Constructor = TC, GenericParameter1 = A>,
 {
    fn traverse_mut<G, B, F: FnMut(A) -> TC1<G, B>>(self, f: F) -> (r: TC1<G, TC1<TC, B>>) where
        TC: TraverseMut<G, A, B>,
        G: ApplicativeMut<B, TC1<TC, B>, TC1<TC, B>>,
     {
        <TC as TraverseMut<G, A, B>>::traverse_mut(self.reify1(), f)
    }
}

/// `traverse_once` as a method of the value that is traversed.
pub trait TraverseOnceSyntax<TC, A>: ConstructableTySyntax1<TC, A> where
    TC: ForAllConstructedTy1<A, ConstructedType = Self>,
 {
    /// Applies `f` to each element of `self` and puts the results
    /// together.
    fn traverse_once<G, B, F: FnOnce(A) -> TC1<G, B>>(self, f: F) -> (r: TC1<G, TC1<TC, B>>) where
        TC: TraverseOnce<G, A, B>,
        G: Applicative<B, TC1<TC, B>, TC1<TC, B>>,

        requires
            accepts_all(f, elements_of::<TC, A>(self)),
        ensures
            exists|parts: Seq<TC1<G, B>>|
                results_of(f, elements_of::<TC, A>(self), parts) && r
                    == #[trigger] <TC as TraverseOnce<G, A, B>>::traversed(self, parts),
    ;
}

impl<TC, A, FA> TraverseOnceSyntax<TC, A> for FA where
    TC: ForAllConstructedTy1<A, ConstructedType = FA>,
    FA: ConstructableTy1<Constructor = TC, GenericParameter1 = A>,
 {
    fn traverse_once<G, B, F: FnOnce(A) -> TC1<G, B>>(self, f: F) -> (r: TC1<G, TC1<TC, B>>) where
        TC: TraverseOnce<G, A, B>,
        G: Applicative<B, TC1<TC, B>, TC1<TC, B>>,
     {
        <TC as TraverseOnce<G, A, B>>::traverse_once(self.reify1(), f)
    }
}

} // verus!
