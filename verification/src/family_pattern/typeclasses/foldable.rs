//! Folding: reducing the elements of a value to one result.

use crate::family_pattern::ty_constructor::ConstructableTy1;
use crate::family_pattern::ty_constructor::ConstructableTyExt1;
use crate::family_pattern::ty_constructor::ConstructableTySyntax1;
use crate::family_pattern::ty_constructor::elements_of;
use crate::family_pattern::ty_constructor::ForAllConstructedTy1;
use crate::family_pattern::ty_constructor::TC1;
use crate::family_pattern::typeclasses::monoid::Monoid;
use crate::family_pattern::typeclasses::outcomes::accepts_all;
use crate::family_pattern::typeclasses::outcomes::fold_left_accepts;
use crate::family_pattern::typeclasses::outcomes::fold_left_results;
use crate::family_pattern::typeclasses::outcomes::fold_right_accepts;
use crate::family_pattern::typeclasses::outcomes::fold_right_results;
use crate::family_pattern::typeclasses::outcomes::lemma_fold_left_accepts_all;
use crate::family_pattern::typeclasses::outcomes::lemma_fold_left_carried;
use crate::family_pattern::typeclasses::outcomes::lemma_fold_left_carried_accepts;
use crate::family_pattern::typeclasses::outcomes::lemma_fold_left_results_weaken;
use crate::family_pattern::typeclasses::outcomes::lemma_fold_right_accepts_all;
use crate::family_pattern::typeclasses::outcomes::lemma_fold_right_carried;
use crate::family_pattern::typeclasses::outcomes::lemma_fold_right_carried_accepts;
use crate::family_pattern::typeclasses::outcomes::lemma_fold_right_results_weaken;
use crate::family_pattern::typeclasses::outcomes::post_of;
use crate::family_pattern::typeclasses::outcomes::post_of2;
use crate::family_pattern::typeclasses::outcomes::pre_of;
use crate::family_pattern::typeclasses::outcomes::pre_of2;
use crate::family_pattern::typeclasses::semigroup::Semigroup;
use vstd::prelude::*;

verus! {

/// The step of a right fold that maps an element into a monoid and
/// combines the image with the accumulator on its right: `post(a, m)`
/// says that `m` may be the image of `a`.
pub open spec fn combine_right<A, M: Semigroup>(post: spec_fn(A, M) -> bool) -> spec_fn(
    A,
    M,
    M,
) -> bool {
    |a: A, s: M, r: M| exists|m: M| #[trigger] post(a, m) && r == m.combined(s)
}

/// The step of a left fold that maps an element into a monoid and combines
/// the accumulator with the image on its right: `post(a, m)` says that `m`
/// may be the image of `a`.
pub open spec fn combine_left<A, M: Semigroup>(post: spec_fn(A, M) -> bool) -> spec_fn(
    M,
    A,
    M,
) -> bool {
    |s: M, a: A, r: M| exists|m: M| #[trigger] post(a, m) && r == s.combined(m)
}

/// Folding with a function that can be called through a shared borrow.
///
/// What a fold returns is stated on the elements of the value alone.
pub trait Foldable<A>: ForAllConstructedTy1<A> {
    /// Folds the elements from the right, starting from `s`: the last
    /// element is combined with `s` first.
    fn foldr<S, F: Fn(A, S) -> S>(ta: TC1<Self, A>, s: S, f: F) -> (r: S)
        requires
            fold_right_accepts(elements_of::<Self, A>(ta), s, pre_of2(f), post_of2(f)),
        ensures
            fold_right_results(elements_of::<Self, A>(ta), s, post_of2(f), r),
    ;

    /// Folds the elements from the left, starting from `s`: the elements
    /// are combined with the accumulator in order.
    fn foldl<S, F: Fn(S, A) -> S>(ta: TC1<Self, A>, s: S, f: F) -> (r: S)
        requires
            fold_left_accepts(elements_of::<Self, A>(ta), s, pre_of2(f), post_of2(f)),
        ensures
            fold_left_results(elements_of::<Self, A>(ta), s, post_of2(f), r),
    ;

    /// Maps each element into a monoid and combines the images from the
    /// right, starting from the identity.
    fn foldr_map<M: Monoid, F: Fn(A) -> M>(ta: TC1<Self, A>, f: F) -> (r: M)
        requires
            accepts_all(f, elements_of::<Self, A>(ta)),
        ensures
            fold_right_results(elements_of::<Self, A>(ta), M::empty(), combine_right(post_of(f)), r),
    {
        let ghost es = elements_of::<Self, A>(ta);
        let ghost pre = pre_of(f);
        let ghost post = post_of(f);
        let ghost combined = combine_right(post);
        let f = f;
        let step = |a: A, s: M| -> (r: M)
            requires
                pre(a),
            ensures
                combined(a, s, r),
            {
                let m = f(a);
                assert(post(a, m));
                m.scombine(s)
            };
        proof {
            lemma_fold_right_accepts_all(es, M::empty(), pre_of2(step), post_of2(step));
        }
        let r = Self::foldr(ta, M::mempty(), step);
        proof {
            lemma_fold_right_results_weaken(es, M::empty(), post_of2(step), combined, r);
        }
        r
    }

    /// Maps each element into a monoid and combines the images from the
    /// left, starting from the identity.
    fn foldl_map<M: Monoid, F: Fn(A) -> M>(ta: TC1<Self, A>, f: F) -> (r: M)
        requires
            accepts_all(f, elements_of::<Self, A>(ta)),
        ensures
            fold_left_results(elements_of::<Self, A>(ta), M::empty(), combine_left(post_of(f)), r),
    {
        let ghost es = elements_of::<Self, A>(ta);
        let ghost pre = pre_of(f);
        let ghost post = post_of(f);
        let ghost combined = combine_left(post);
        let f = f;
        let step = |s: M, a: A| -> (r: M)
            requires
                pre(a),
            ensures
                combined(s, a, r),
            {
                let m = f(a);
                assert(post(a, m));
                s.scombine(m)
            };
        proof {
            lemma_fold_left_accepts_all(es, M::empty(), pre_of2(step), post_of2(step));
        }
        let r = Self::foldl(ta, M::mempty(), step);
        proof {
            lemma_fold_left_results_weaken(es, M::empty(), post_of2(step), combined, r);
        }
        r
    }
}

/// Folding with a function that can be called through a unique borrow.
///
/// What a fold returns is stated on the elements of the value alone. The
/// mapping folds hand the function from step to step in the accumulator.
pub trait FoldableMut<A>: ForAllConstructedTy1<A> {
    /// Folds the elements from the right, starting from `s`: the last
    /// element is combined with `s` first.
    fn foldr_mut<S, F: FnMut(A, S) -> S>(ta: TC1<Self, A>, s: S, f: F) -> (r: S)
        requires
            fold_right_accepts(elements_of::<Self, A>(ta), s, pre_of2(f), post_of2(f)),
        ensures
            fold_right_results(elements_of::<Self, A>(ta), s, post_of2(f), r),
    ;

    /// Folds the elements from the left, starting from `s`: the elements
    /// are combined with the accumulator in order.
    fn foldl_mut<S, F: FnMut(S, A) -> S>(ta: TC1<Self, A>, s: S, f: F) -> (r: S)
        requires
            fold_left_accepts(elements_of::<Self, A>(ta), s, pre_of2(f), post_of2(f)),
        ensures
            fold_left_results(elements_of::<Self, A>(ta), s, post_of2(f), r),
    ;

    /// Maps each element into a monoid and combines the images from the
    /// right, starting from the identity.
    fn foldr_map_mut<M: Monoid, F: FnMut(A) -> M>(ta: TC1<Self, A>, f: F) -> (r: M)
        requires
            accepts_all(f, elements_of::<Self, A>(ta)),
        ensures
            fold_right_results(elements_of::<Self, A>(ta), M::empty(), combine_right(post_of(f)), r),
    {
        let ghost es = elements_of::<Self, A>(ta);
        let ghost given = f;
        let ghost is_given = |g: F| g == given;
        let ghost pre = pre_of(f);
        let ghost post = post_of(f);
        let ghost combined = combine_right(post);
        let step = |a: A, state: (M, F)| -> (next: (M, F))
            requires
                is_given(state.1),
                pre(a),
            ensures
                is_given(next.1),
                combined(a, state.0, next.0),
            {
                let (s, mut f) = state;
                let m = f(a);
                assert(post(a, m));
                (m.scombine(s), f)
            };
        proof {
            lemma_fold_right_carried_accepts(
                es,
                M::empty(),
                given,
                pre_of2(step),
                post_of2(step),
                combined,
            );
        }
        let out = Self::foldr_mut(ta, (M::mempty(), f), step);
        proof {
            lemma_fold_right_carried(es, M::empty(), given, post_of2(step), combined, out);
        }
        out.0
    }

    /// Maps each element into a monoid and combines the images from the
    /// left, starting from the identity.
    fn foldl_map_mut<M: Monoid, F: FnMut(A) -> M>(ta: TC1<Self, A>, f: F) -> (r: M)
        requires
            accepts_all(f, elements_of::<Self, A>(ta)),
        ensures
            fold_left_results(elements_of::<Self, A>(ta), M::empty(), combine_left(post_of(f)), r),
    {
        let ghost es = elements_of::<Self, A>(ta);
        let ghost given = f;
        let ghost is_given = |g: F| g == given;
        let ghost pre = pre_of(f);
        let ghost post = post_of(f);
        let ghost combined = combine_left(post);
        let step = |state: (M, F), a: A| -> (next: (M, F))
            requires
                is_given(state.1),
                pre(a),
            ensures
                is_given(next.1),
                combined(state.0, a, next.0),
            {
                let (s, mut f) = state;
                let m = f(a);
                assert(post(a, m));
                (s.scombine(m), f)
            };
        proof {
            lemma_fold_left_carried_accepts(
                es,
                M::empty(),
                given,
                pre_of2(step),
                post_of2(step),
                combined,
            );
        }
        let out = Self::foldl_mut(ta, (M::mempty(), f), step);
        proof {
            lemma_fold_left_carried(es, M::empty(), given, post_of2(step), combined, out);
        }
        out.0
    }
}

/// Folding with a function that can be called once.
///
/// What a fold returns is stated on the elements of the value alone.
pub trait FoldableOnce<A>: ForAllConstructedTy1<A> {
    /// Folds the elements from the right, starting from `s`: the last
    /// element is combined with `s` first.
    fn foldr_once<S, F: FnOnce(A, S) -> S>(ta: TC1<Self, A>, s: S, f: F) -> (r: S)
        requires
            fold_right_accepts(elements_of::<Self, A>(ta), s, pre_of2(f), post_of2(f)),
        ensures
            fold_right_results(elements_of::<Self, A>(ta), s, post_of2(f), r),
    ;

    /// Folds the elements from the left, starting from `s`: the elements
    /// are combined with the accumulator in order.
    fn foldl_once<S, F: FnOnce(S, A) -> S>(ta: TC1<Self, A>, s: S, f: F) -> (r: S)
        requires
            fold_left_accepts(elements_of::<Self, A>(ta), s, pre_of2(f), post_of2(f)),
        ensures
            fold_left_results(elements_of::<Self, A>(ta), s, post_of2(f), r),
    ;

    /// Maps each element into a monoid and combines the images from the
    /// right, starting from the identity.
    fn foldr_map_once<M: Monoid, F: FnOnce(A) -> M>(ta: TC1<Self, A>, f: F) -> (r: M)
        requires
            accepts_all(f, elements_of::<Self, A>(ta)),
        ensures
            fold_right_results(elements_of::<Self, A>(ta), M::empty(), combine_right(post_of(f)), r),
    {
        let ghost es = elements_of::<Self, A>(ta);
        let ghost pre = pre_of(f);
        let ghost post = post_of(f);
        let ghost combined = combine_right(post);
        let f = f;
        let step = |a: A, s: M| -> (r: M)
            requires
                pre(a),
            ensures
                combined(a, s, r),
            {
                let m = f(a);
                assert(post(a, m));
                m.scombine(s)
            };
        proof {
            lemma_fold_right_accepts_all(es, M::empty(), pre_of2(step), post_of2(step));
        }
        let r = Self::foldr_once(ta, M::mempty(), step);
        proof {
            lemma_fold_right_results_weaken(es, M::empty(), post_of2(step), combined, r);
        }
        r
    }

    /// Maps each element into a monoid and combines the images from the
    /// left, starting from the identity.
    fn foldl_map_once<M: Monoid, F: FnOnce(A) -> M>(ta: TC1<Self, A>, f: F) -> (r: M)
        requires
            accepts_all(f, elements_of::<Self, A>(ta)),
        ensures
            fold_left_results(elements_of::<Self, A>(ta), M::empty(), combine_left(post_of(f)), r),
    {
        let ghost es = elements_of::<Self, A>(ta);
        let ghost pre = pre_of(f);
        let ghost post = post_of(f);
        let ghost combined = combine_left(post);
        let f = f;
        let step = |s: M, a: A| -> (r: M)
            requires
                pre(a),
            ensures
                combined(s, a, r),
            {
                let m = f(a);
                assert(post(a, m));
                s.scombine(m)
            };
        proof {
            lemma_fold_left_accepts_all(es, M::empty(), pre_of2(step), post_of2(step));
        }
        let r = Self::foldl_once(ta, M::mempty(), step);
        proof {
            lemma_fold_left_results_weaken(es, M::empty(), post_of2(step), combined, r);
        }
        r
    }
}

/// An instance of `FoldableOnce` is an instance of `FoldableMut`.
impl<A, T: FoldableOnce<A>> FoldableMut<A> for T {
    fn foldr_mut<S, F: FnMut(A, S) -> S>(ta: TC1<Self, A>, s: S, f: F) -> (r: S) {
        T::foldr_once(ta, s, f)
    }

    fn foldl_mut<S, F: FnMut(S, A) -> S>(ta: TC1<Self, A>, s: S, f: F) -> (r: S) {
        T::foldl_once(ta, s, f)
    }

    fn foldr_map_mut<M: Monoid, F: FnMut(A) -> M>(ta: TC1<Self, A>, f: F) -> (r: M) {
        T::foldr_map_once(ta, f)
    }

    fn foldl_map_mut<M: Monoid, F: FnMut(A) -> M>(ta: TC1<Self, A>, f: F) -> (r: M) {
        T::foldl_map_once(ta, f)
    }
}

/// An instance of `FoldableMut` is an instance of `Foldable`.
impl<A, T: FoldableMut<A>> Foldable<A> for T {
    fn foldr<S, F: Fn(A, S) -> S>(ta: TC1<Self, A>, s: S, f: F) -> (r: S) {
        T::foldr_mut(ta, s, f)
    }

    fn foldl<S, F: Fn(S, A) -> S>(ta: TC1<Self, A>, s: S, f: F) -> (r: S) {
        T::foldl_mut(ta, s, f)
    }

    fn foldr_map<M: Monoid, F: Fn(A) -> M>(ta: TC1<Self, A>, f: F) -> (r: M) {
        T::foldr_map_mut(ta, f)
    }

    fn foldl_map<M: Monoid, F: Fn(A) -> M>(ta: TC1<Self, A>, f: F) -> (r: M) {
        T::foldl_map_mut(ta, f)
    }
}

/// The folds of `Foldable` as methods of the value that is folded.
pub trait FoldableSyntax<T, A>: ConstructableTySyntax1<T, A> where
    T: ForAllConstructedTy1<A, ConstructedType = Self>,
 {
    /// Folds the elements from the right, starting from `s`: the last
    /// element is combined with `s` first.
    fn foldr<S, F: Fn(A, S) -> S>(self, s: S, f: F) -> (r: S) where T: Foldable<A>
        requires
            fold_right_accepts(elements_of::<T, A>(self), s, pre_of2(f), post_of2(f)),
        ensures
            fold_right_results(elements_of::<T, A>(self), s, post_of2(f), r),
    ;

    /// Folds the elements from the left, starting from `s`: the elements
    /// are combined with the accumulator in order.
    fn foldl<S, F: Fn(S, A) -> S>(self, s: S, f: F) -> (r: S) where T: Foldable<A>
        requires
            fold_left_accepts(elements_of::<T, A>(self), s, pre_of2(f), post_of2(f)),
        ensures
            fold_left_results(elements_of::<T, A>(self), s, post_of2(f), r),
    ;

    /// Maps each element into a monoid and combines the images from the
    /// right, starting from the identity.
    fn foldr_map<M: Monoid, F: Fn(A) -> M>(self, f: F) -> (r: M) where T: Foldable<A>
        requires
            accepts_all(f, elements_of::<T, A>(self)),
        ensures
            fold_right_results(elements_of::<T, A>(self), M::empty(), combine_right(post_of(f)), r),
    ;

    /// Maps each element into a monoid and combines the images from the
    /// left, starting from the identity.
    fn foldl_map<M: Monoid, F: Fn(A) -> M>(self, f: F) -> (r: M) where T: Foldable<A>
        requires
            accepts_all(f, elements_of::<T, A>(self)),
        ensures
            fold_left_results(elements_of::<T, A>(self), M::empty(), combine_left(post_of(f)), r),
    ;
}

impl<T, A, TA> FoldableSyntax<T, A> for TA where
    T: ForAllConstructedTy1<A, ConstructedType = TA>,
    TA: ConstructableTy1<Constructor = T, GenericParameter1 = A>,
 {
    fn foldr<S, F: Fn(A, S) -> S>(self, s: S, f: F) -> (r: S) where T: Foldable<A> {
        <T as Foldable<A>>::foldr(self.reify1(), s, f)
    }

    fn foldl<S, F: Fn(S, A) -> S>(self, s: S, f: F) -> (r: S) where T: Foldable<A> {
        <T as Foldable<A>>::foldl(self.reify1(), s, f)
    }

    fn foldr_map<M: Monoid, F: Fn(A) -> M>(self, f: F) -> (r: M) where T: Foldable<A> {
        <T as Foldable<A>>::foldr_map(self.reify1(), f)
    }

    fn foldl_map<M: Monoid, F: Fn(A) -> M>(self, f: F) -> (r: M) where T: Foldable<A> {
        <T as Foldable<A>>::foldl_map(self.reify1(), f)
    }
}

/// The folds of `FoldableMut` as methods of the value that is folded.
pub trait FoldableMutSyntax<T, A>: ConstructableTySyntax1<T, A> where
    T: ForAllConstructedTy1<A, ConstructedType = Self>,
 {
    /// Folds the elements from the right, starting from `s`: the last
    /// element is combined with `s` first.
    fn foldr_mut<S, F: FnMut(A, S) -> S>(self, s: S, f: F) -> (r: S) where T: FoldableMut<A>
        requires
            fold_right_accepts(elements_of::<T, A>(self), s, pre_of2(f), post_of2(f)),
        ensures
            fold_right_results(elements_of::<T, A>(self), s, post_of2(f), r),
    ;

    /// Folds the elements from the left, starting from `s`: the elements
    /// are combined with the accumulator in order.
    fn foldl_mut<S, F: FnMut(S, A) -> S>(self, s: S, f: F) -> (r: S) where T: FoldableMut<A>
        requires
            fold_left_accepts(elements_of::<T, A>(self), s, pre_of2(f), post_of2(f)),
        ensures
            fold_left_results(elements_of::<T, A>(self), s, post_of2(f), r),
    ;

    /// Maps each element into a monoid and combines the images from the
    /// right, starting from the identity.
    fn foldr_map_mut<M: Monoid, F: FnMut(A) -> M>(self, f: F) -> (r: M) where T: FoldableMut<A>
        requires
            accepts_all(f, elements_of::<T, A>(self)),
        ensures
            fold_right_results(elements_of::<T, A>(self), M::empty(), combine_right(post_of(f)), r),
    ;

    /// Maps each element into a monoid and combines the images from the
    /// left, starting from the identity.
    fn foldl_map_mut<M: Monoid, F: FnMut(A) -> M>(self, f: F) -> (r: M) where T: FoldableMut<A>
        requires
            accepts_all(f, elements_of::<T, A>(self)),
        ensures
            fold_left_results(elements_of::<T, A>(self), M::empty(), combine_left(post_of(f)), r),
    ;
}

impl<T, A, TA> FoldableMutSyntax<T, A> for TA where
    T: ForAllConstructedTy1<A, ConstructedType = TA>,
    TA: ConstructableTy1<Constructor = T, GenericParameter1 = A>,
 {
    fn foldr_mut<S, F: FnMut(A, S) -> S>(self, s: S, f: F) -> (r: S) where T: FoldableMut<A> {
        <T as FoldableMut<A>>::foldr_mut(self.reify1(), s, f)
    }

    fn foldl_mut<S, F: FnMut(S, A) -> S>(self, s: S, f: F) -> (r: S) where T: FoldableMut<A> {
        <T as FoldableMut<A>>::foldl_mut(self.reify1(), s, f)
    }

    fn foldr_map_mut<M: Monoid, F: FnMut(A) -> M>(self, f: F) -> (r: M) where T: FoldableMut<A> {
        <T as FoldableMut<A>>::foldr_map_mut(self.reify1(), f)
    }

    fn foldl_map_mut<M: Monoid, F: FnMut(A) -> M>(self, f: F) -> (r: M) where T: FoldableMut<A> {
        <T as FoldableMut<A>>::foldl_map_mut(self.reify1(), f)
    }
}

/// The folds of `FoldableOnce` as methods of the value that is folded.
pub trait FoldableOnceSyntax<T, A>: ConstructableTySyntax1<T, A> where
    T: ForAllConstructedTy1<A, ConstructedType = Self>,
 {
    /// Folds the elements from the right, starting from `s`: the last
    /// element is combined with `s` first.
    fn foldr_once<S, F: FnOnce(A, S) -> S>(self, s: S, f: F) -> (r: S) where T: FoldableOnce<A>
        requires
            fold_right_accepts(elements_of::<T, A>(self), s, pre_of2(f), post_of2(f)),
        ensures
            fold_right_results(elements_of::<T, A>(self), s, post_of2(f), r),
    ;

    /// Folds the elements from the left, starting from `s`: the elements
    /// are combined with the accumulator in order.
    fn foldl_once<S, F: FnOnce(S, A) -> S>(self, s: S, f: F) -> (r: S) where T: FoldableOnce<A>
        requires
            fold_left_accepts(elements_of::<T, A>(self), s, pre_of2(f), post_of2(f)),
        ensures
            fold_left_results(elements_of::<T, A>(self), s, post_of2(f), r),
    ;

    /// Maps each element into a monoid and combines the images from the
    /// right, starting from the identity.
    fn foldr_map_once<M: Monoid, F: FnOnce(A) -> M>(self, f: F) -> (r: M) where T: FoldableOnce<A>
        requires
            accepts_all(f, elements_of::<T, A>(self)),
        ensures
            fold_right_results(elements_of::<T, A>(self), M::empty(), combine_right(post_of(f)), r),
    ;

    /// Maps each element into a monoid and combines the images from the
    /// left, starting from the identity.
    fn foldl_map_once<M: Monoid, F: FnOnce(A) -> M>(self, f: F) -> (r: M) where T: FoldableOnce<A>
        requires
            accepts_all(f, elements_of::<T, A>(self)),
        ensures
            fold_left_results(elements_of::<T, A>(self), M::empty(), combine_left(post_of(f)), r),
    ;
}

impl<T, A, TA> FoldableOnceSyntax<T, A> for TA where
    T: ForAllConstructedTy1<A, ConstructedType = TA>,
    TA: ConstructableTy1<Constructor = T, GenericParameter1 = A>,
 {
    fn foldr_once<S, F: FnOnce(A, S) -> S>(self, s: S, f: F) -> (r: S) where T: FoldableOnce<A> {
        <T as FoldableOnce<A>>::foldr_once(self.reify1(), s, f)
    }

    fn foldl_once<S, F: FnOnce(S, A) -> S>(self, s: S, f: F) -> (r: S) where T: FoldableOnce<A> {
        <T as FoldableOnce<A>>::foldl_once(self.reify1(), s, f)
    }

    fn foldr_map_once<M: Monoid, F: FnOnce(A) -> M>(self, f: F) -> (r: M) where T: FoldableOnce<A> {
        <T as FoldableOnce<A>>::foldr_map_once(self.reify1(), f)
    }

    fn foldl_map_once<M: Monoid, F: FnOnce(A) -> M>(self, f: F) -> (r: M) where T: FoldableOnce<A> {
        <T as FoldableOnce<A>>::foldl_map_once(self.reify1(), f)
    }
}

} // verus!
