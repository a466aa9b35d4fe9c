//! Sequential composition: continuing a value with a function that
//! returns a value of the same constructor.

use crate::family_pattern::ty_constructor::ConstructableTy1;
use crate::family_pattern::ty_constructor::ConstructableTyExt1;
use crate::family_pattern::ty_constructor::ConstructableTySyntax1;
use crate::family_pattern::ty_constructor::elements_of;
use crate::family_pattern::ty_constructor::ForAllConstructedTy1;
use crate::family_pattern::ty_constructor::TC1;
use crate::family_pattern::typeclasses::outcomes::accepts_all;
use crate::family_pattern::typeclasses::outcomes::computes;
use crate::family_pattern::typeclasses::outcomes::results_of;
use vstd::prelude::*;

verus! {

/// Binding a function that can be called through a shared borrow.
///
/// Binding applies the function to each element of a value and joins what
/// it returns into one value; the shape of the result depends on what the
/// function returns, and how the parts are joined is for the instance to
/// say.
pub trait Bind<A, B>: ForAllConstructedTy1<A> + ForAllConstructedTy1<B> {
    /// The value that joins `parts`, one for each element of `ta`, along
    /// the shape of `ta`.
    spec fn joined(ta: TC1<Self, A>, parts: Seq<TC1<Self, B>>) -> TC1<Self, B>;

    /// Applies `f` to each element of `ta` and joins the results.
    fn bind<F: Fn(A) -> TC1<Self, B>>(ta: TC1<Self, A>, f: F) -> (tb: TC1<Self, B>)
        requires
            accepts_all(f, elements_of::<Self, A>(ta)),
        ensures
            exists|parts: Seq<TC1<Self, B>>|
                results_of(f, elements_of::<Self, A>(ta), parts) && tb == #[trigger] Self::joined(
                    ta,
                    parts,
                ),
    ;
}

/// Binding a function that can be called through a unique borrow.
///
/// Binding applies the function to each element of a value and joins what
/// it returns into one value; the shape of the result depends on what the
/// function returns, and how the parts are joined is for the instance to
/// say.
pub trait BindMut<A, B>: ForAllConstructedTy1<A> + ForAllConstructedTy1<B> {
    /// The value that joins `parts`, one for each element of `ta`, along
    /// the shape of `ta`.
    spec fn joined(ta: TC1<Self, A>, parts: Seq<TC1<Self, B>>) -> TC1<Self, B>;

    /// Applies `f` to each element of `ta` and joins the results.
    fn bind_mut<F: FnMut(A) -> TC1<Self, B>>(ta: TC1<Self, A>, f: F) -> (tb: TC1<Self, B>)
        requires
            accepts_all(f, elements_of::<Self, A>(ta)),
        ensures
            exists|parts: Seq<TC1<Self, B>>|
                results_of(f, elements_of::<Self, A>(ta), parts) && tb == #[trigger] Self::joined(
                    ta,
                    parts,
                ),
    ;
}

/// Binding a function that can be called once.
///
/// Binding applies the function to each element of a value and joins what
/// it returns into one value; the shape of the result depends on what the
/// function returns, and how the parts are joined is for the instance to
/// say.
pub trait BindOnce<A, B>: ForAllConstructedTy1<A> + ForAllConstructedTy1<B> {
    /// The value that joins `parts`, one for each element of `ta`, along
    /// the shape of `ta`.
    spec fn joined(ta: TC1<Self, A>, parts: Seq<TC1<Self, B>>) -> TC1<Self, B>;

    /// Applies `f` to each element of `ta` and joins the results.
    fn bind_once<F: FnOnce(A) -> TC1<Self, B>>(ta: TC1<Self, A>, f: F) -> (tb: TC1<Self, B>)
        requires
            accepts_all(f, elements_of::<Self, A>(ta)),
        ensures
            exists|parts: Seq<TC1<Self, B>>|
                results_of(f, elements_of::<Self, A>(ta), parts) && tb == #[trigger] Self::joined(
                    ta,
                    parts,
                ),
    ;
}

/// An instance of `BindOnce` binds functions called through a unique borrow too.
impl<A, B, T: BindOnce<A, B>> BindMut<A, B> for T {
    open spec fn joined(ta: TC1<Self, A>, parts: Seq<TC1<Self, B>>) -> TC1<Self, B> {
        <T as BindOnce<A, B>>::joined(ta, parts)
    }

    fn bind_mut<F: FnMut(A) -> TC1<Self, B>>(ta: TC1<Self, A>, f: F) -> (tb: TC1<Self, B>) {
        let tb = T::bind_once(ta, f);
        proof {
            let parts = choose|parts: Seq<TC1<Self, B>>|
                results_of(f, elements_of::<Self, A>(ta), parts) && tb == #[trigger] <T as BindOnce<
                    A,
                    B,
                >>::joined(ta, parts);
            assert(tb == <T as BindMut<A, B>>::joined(ta, parts));
        }
        tb
    }
}

/// An instance of `BindMut` binds functions called through a shared borrow too.
impl<A, B, T: BindMut<A, B>> Bind<A, B> for T {
    open spec fn joined(ta: TC1<Self, A>, parts: Seq<TC1<Self, B>>) -> TC1<Self, B> {
        <T as BindMut<A, B>>::joined(ta, parts)
    }

    fn bind<F: Fn(A) -> TC1<Self, B>>(ta: TC1<Self, A>, f: F) -> (tb: TC1<Self, B>) {
        let tb = T::bind_mut(ta, f);
        proof {
            let parts = choose|parts: Seq<TC1<Self, B>>|
                results_of(f, elements_of::<Self, A>(ta), parts) && tb == #[trigger] <T as BindMut<
                    A,
                    B,
                >>::joined(ta, parts);
            assert(tb == <T as Bind<A, B>>::joined(ta, parts));
        }
        tb
    }
}

/// The value that binding the mathematical function `k` to `ta` gives.
pub open spec fn bound<T: Bind<A, B>, A, B>(ta: TC1<T, A>, k: spec_fn(A) -> TC1<T, B>) -> TC1<
    T,
    B,
> {
    T::joined(ta, elements_of::<T, A>(ta).map_values(k))
}

/// Binding an executable function that computes `k` gives what binding `k`
/// gives.
pub proof fn lemma_bind_computes<T: Bind<A, B>, A, B, F: FnOnce(A) -> TC1<T, B>>(
    ta: TC1<T, A>,
    f: F,
    k: spec_fn(A) -> TC1<T, B>,
    parts: Seq<TC1<T, B>>,
)
    requires
        computes(f, k),
        results_of(f, elements_of::<T, A>(ta), parts),
    ensures
        T::joined(ta, parts) == bound::<T, A, B>(ta, k),
{
    assert(parts =~= elements_of::<T, A>(ta).map_values(k));
}

/// `bind` as a method of the value that is continued.
pub trait BindSyntax<T, A>: ConstructableTySyntax1<T, A> where
    T: ForAllConstructedTy1<A, ConstructedType = Self>,
 {
    /// Applies `f` to each element of `self` and joins the results.
    fn bind<B, F: Fn(A) -> TC1<T, B>>(self, f: F) -> (tb: TC1<T, B>) where T: Bind<A, B>
        requires
            accepts_all(f, elements_of::<T, A>(self)),
        ensures
            exists|parts: Seq<TC1<T, B>>|
                results_of(f, elements_of::<T, A>(self), parts) && tb == #[trigger] <T as Bind<
                    A,
                    B,
                >>::joined(self, parts),
    ;
}

impl<T, A, FA> BindSyntax<T, A> for FA where
    T: ForAllConstructedTy1<A, ConstructedType = FA>,
    FA: ConstructableTy1<Constructor = T, GenericParameter1 = A>,
 {
    fn bind<B, F: Fn(A) -> TC1<T, B>>(self, f: F) -> (tb: TC1<T, B>) where T: Bind<A, B> {
        <T as Bind<A, B>>::bind(self.reify1(), f)
    }
}

/// `bind_mut` as a method of the value that is continued.
pub trait BindMutSyntax<T, A>: ConstructableTySyntax1<T, A> where
    T: ForAllConstructedTy1<A, ConstructedType = Self>,
 {
    /// Applies `f` to each element of `self` and joins the results.
    fn bind_mut<B, F: FnMut(A) -> TC1<T, B>>(self, f: F) -> (tb: TC1<T, B>) where T: BindMut<A, B>
        requires
            accepts_all(f, elements_of::<T, A>(self)),
        ensures
            exists|parts: Seq<TC1<T, B>>|
                results_of(f, elements_of::<T, A>(self), parts) && tb == #[trigger] <T as BindMut<
                    A,
                    B,
                >>::joined(self, parts),
    ;
}

impl<T, A, FA> BindMutSyntax<T, A> for FA where
    T: ForAllConstructedTy1<A, ConstructedType = FA>,
    FA: ConstructableTy1<Constructor = T, GenericParameter1 = A>,
 {
    fn bind_mut<B, F: FnMut(A) -> TC1<T, B>>(self, f: F) -> (tb: TC1<T, B>) where T: BindMut<A, B> {
        <T as BindMut<A, B>>::bind_mut(self.reify1(), f)
    }
}

/// `bind_once` as a method of the value that is continued.
pub trait BindOnceSyntax<T, A>: ConstructableTySyntax1<T, A> where
    T: ForAllConstructedTy1<A, ConstructedType = Self>,
 {
    /// Applies `f` to each element of `self` and joins the results.
    fn bind_once<B, F: FnOnce(A) -> TC1<T, B>>(self, f: F) -> (tb: TC1<T, B>) where T: BindOnce<A, B>
        requires
            accepts_all(f, elements_of::<T, A>(self)),
        ensures
            exists|parts: Seq<TC1<T, B>>|
                results_of(f, elements_of::<T, A>(self), parts) && tb == #[trigger] <T as BindOnce<
                    A,
                    B,
                >>::joined(self, parts),
    ;
}

impl<T, A, FA> BindOnceSyntax<T, A> for FA where
    T: ForAllConstructedTy1<A, ConstructedType = FA>,
    FA: ConstructableTy1<Constructor = T, GenericParameter1 = A>,
 {
    fn bind_once<B, F: FnOnce(A) -> TC1<T, B>>(self, f: F) -> (tb: TC1<T, B>) where T: BindOnce<A, B> {
        <T as BindOnce<A, B>>::bind_once(self.reify1(), f)
    }
}

} // verus!
