//! Lifting functions of two arguments, and applying wrapped functions.

use crate::family_pattern::ty_constructor::ConstructableTy1;
use crate::family_pattern::ty_constructor::ConstructableTyExt1;
use crate::family_pattern::ty_constructor::ConstructableTySyntax1;
use crate::family_pattern::ty_constructor::elements_of;
use crate::family_pattern::ty_constructor::ForAllConstructedTy1;
use crate::family_pattern::ty_constructor::TC1;
use crate::family_pattern::typeclasses::outcomes::accepts_all_pairs;
use crate::family_pattern::typeclasses::outcomes::applies_all;
use crate::family_pattern::typeclasses::outcomes::computes2;
use crate::family_pattern::typeclasses::outcomes::results_of_applying;
use crate::family_pattern::typeclasses::outcomes::results_of_pairs;
use vstd::prelude::*;

verus! {

/// Lifting a function that can be called through a shared borrow.
///
/// Lifting a function of two arguments over two values applies it to
/// pairs of their elements; which pairs, and what shape the result has, is
/// for the instance to say.
pub trait Ap<A, B, C>: ForAllConstructedTy1<A> + ForAllConstructedTy1<B> + ForAllConstructedTy1<
    C,
> {
    /// The pairs of elements that lifting over `fa` and `fb` applies the
    /// function to, in order.
    spec fn pairs(fa: TC1<Self, A>, fb: TC1<Self, B>) -> Seq<(A, B)>;

    /// The value that lifting over `fa` and `fb` gives when the function
    /// returns `cs` for the pairs.
    spec fn lifted(fa: TC1<Self, A>, fb: TC1<Self, B>, cs: Seq<C>) -> TC1<Self, C>;

    /// Applies the functions that `ff` holds to the elements of `fa`.
    fn ap(ff: TC1<Self, A>, fa: TC1<Self, B>) -> (fc: TC1<Self, C>) where A: Fn(B) -> C
        requires
            applies_all(Self::pairs(ff, fa)),
        ensures
            results_of_applying(Self::pairs(ff, fa), elements_of::<Self, C>(fc)),
            fc == Self::lifted(ff, fa, elements_of::<Self, C>(fc)),
    {
        let apply = |f: A, a: B| -> (c: C)
            requires
                f.requires((a, )),
            ensures
                f.ensures((a, ), c),
            { f(a) };
        Self::lift_2a(ff, fa, apply)
    }

    /// Applies `f` to the pairs of elements of `fa` and `fb`.
    fn lift_2a<F: Fn(A, B) -> C>(fa: TC1<Self, A>, fb: TC1<Self, B>, f: F) -> (fc: TC1<
        Self,
        C,
    >)
        requires
            accepts_all_pairs(f, Self::pairs(fa, fb)),
        ensures
            results_of_pairs(f, Self::pairs(fa, fb), elements_of::<Self, C>(fc)),
            fc == Self::lifted(fa, fb, elements_of::<Self, C>(fc)),
    ;
}

/// Lifting a function that can be called through a unique borrow.
///
/// Lifting a function of two arguments over two values applies it to
/// pairs of their elements; which pairs, and what shape the result has, is
/// for the instance to say.
pub trait ApMut<A, B, C>: ForAllConstructedTy1<A> + ForAllConstructedTy1<B> + ForAllConstructedTy1<
    C,
> {
    /// The pairs of elements that lifting over `fa` and `fb` applies the
    /// function to, in order.
    spec fn pairs(fa: TC1<Self, A>, fb: TC1<Self, B>) -> Seq<(A, B)>;

    /// The value that lifting over `fa` and `fb` gives when the function
    /// returns `cs` for the pairs.
    spec fn lifted(fa: TC1<Self, A>, fb: TC1<Self, B>, cs: Seq<C>) -> TC1<Self, C>;

    /// Applies the functions that `ff` holds to the elements of `fa`.
    fn ap_mut(ff: TC1<Self, A>, fa: TC1<Self, B>) -> (fc: TC1<Self, C>) where A: FnMut(B) -> C
        requires
            applies_all(Self::pairs(ff, fa)),
        ensures
            results_of_applying(Self::pairs(ff, fa), elements_of::<Self, C>(fc)),
            fc == Self::lifted(ff, fa, elements_of::<Self, C>(fc)),
    {
        let apply = |mut f: A, a: B| -> (c: C)
            requires
                f.requires((a, )),
            ensures
                f.ensures((a, ), c),
            { f(a) };
        Self::lift_2a_mut(ff, fa, apply)
    }

    /// Applies `f` to the pairs of elements of `fa` and `fb`.
    fn lift_2a_mut<F: FnMut(A, B) -> C>(fa: TC1<Self, A>, fb: TC1<Self, B>, f: F) -> (fc: TC1<
        Self,
        C,
    >)
        requires
            accepts_all_pairs(f, Self::pairs(fa, fb)),
        ensures
            results_of_pairs(f, Self::pairs(fa, fb), elements_of::<Self, C>(fc)),
            fc == Self::lifted(fa, fb, elements_of::<Self, C>(fc)),
    ;
}

/// Lifting a function that can be called once.
///
/// Lifting a function of two arguments over two values applies it to
/// pairs of their elements; which pairs, and what shape the result has, is
/// for the instance to say.
pub trait ApOnce<A, B, C>: ForAllConstructedTy1<A> + ForAllConstructedTy1<B> + ForAllConstructedTy1<
    C,
> {
    /// The pairs of elements that lifting over `fa` and `fb` applies the
    /// function to, in order.
    spec fn pairs(fa: TC1<Self, A>, fb: TC1<Self, B>) -> Seq<(A, B)>;

    /// The value that lifting over `fa` and `fb` gives when the function
    /// returns `cs` for the pairs.
    spec fn lifted(fa: TC1<Self, A>, fb: TC1<Self, B>, cs: Seq<C>) -> TC1<Self, C>;

    /// Applies the functions that `ff` holds to the elements of `fa`.
    fn ap_once(ff: TC1<Self, A>, fa: TC1<Self, B>) -> (fc: TC1<Self, C>) where A: FnOnce(B) -> C
        requires
            applies_all(Self::pairs(ff, fa)),
        ensures
            results_of_applying(Self::pairs(ff, fa), elements_of::<Self, C>(fc)),
            fc == Self::lifted(ff, fa, elements_of::<Self, C>(fc)),
    {
        let apply = |f: A, a: B| -> (c: C)
            requires
                f.requires((a, )),
            ensures
                f.ensures((a, ), c),
            { f(a) };
        Self::lift_2a_once(ff, fa, apply)
    }

    /// Applies `f` to the pairs of elements of `fa` and `fb`.
    fn lift_2a_once<F: FnOnce(A, B) -> C>(fa: TC1<Self, A>, fb: TC1<Self, B>, f: F) -> (fc: TC1<
        Self,
        C,
    >)
        requires
            accepts_all_pairs(f, Self::pairs(fa, fb)),
        ensures
            results_of_pairs(f, Self::pairs(fa, fb), elements_of::<Self, C>(fc)),
            fc == Self::lifted(fa, fb, elements_of::<Self, C>(fc)),
    ;
}

/// An instance of `ApOnce` lifts functions called through a unique borrow too.
impl<A, B, C, T: ApOnce<A, B, C>> ApMut<A, B, C> for T {
    open spec fn pairs(fa: TC1<Self, A>, fb: TC1<Self, B>) -> Seq<(A, B)> {
        <T as ApOnce<A, B, C>>::pairs(fa, fb)
    }

    open spec fn lifted(fa: TC1<Self, A>, fb: TC1<Self, B>, cs: Seq<C>) -> TC1<Self, C> {
        <T as ApOnce<A, B, C>>::lifted(fa, fb, cs)
    }

    fn ap_mut(ff: TC1<Self, A>, fa: TC1<Self, B>) -> (fc: TC1<Self, C>) where A: FnMut(B) -> C {
        T::ap_once(ff, fa)
    }

    fn lift_2a_mut<F: FnMut(A, B) -> C>(fa: TC1<Self, A>, fb: TC1<Self, B>, f: F) -> (fc: TC1<
        Self,
        C,
    >) {
        T::lift_2a_once(fa, fb, f)
    }
}

/// An instance of `ApMut` lifts functions called through a shared borrow too.
impl<A, B, C, T: ApMut<A, B, C>> Ap<A, B, C> for T {
    open spec fn pairs(fa: TC1<Self, A>, fb: TC1<Self, B>) -> Seq<(A, B)> {
        <T as ApMut<A, B, C>>::pairs(fa, fb)
    }

    open spec fn lifted(fa: TC1<Self, A>, fb: TC1<Self, B>, cs: Seq<C>) -> TC1<Self, C> {
        <T as ApMut<A, B, C>>::lifted(fa, fb, cs)
    }

    fn ap(ff: TC1<Self, A>, fa: TC1<Self, B>) -> (fc: TC1<Self, C>) where A: Fn(B) -> C {
        T::ap_mut(ff, fa)
    }

    fn lift_2a<F: Fn(A, B) -> C>(fa: TC1<Self, A>, fb: TC1<Self, B>, f: F) -> (fc: TC1<
        Self,
        C,
    >) {
        T::lift_2a_mut(fa, fb, f)
    }
}

/// The value that lifting the mathematical function `g` over `fa` and `fb`
/// gives.
pub open spec fn lift2<T: Ap<A, B, C>, A, B, C>(
    fa: TC1<T, A>,
    fb: TC1<T, B>,
    g: spec_fn(A, B) -> C,
) -> TC1<T, C> {
    T::lifted(fa, fb, T::pairs(fa, fb).map_values(|p: (A, B)| g(p.0, p.1)))
}

/// Lifting an executable function that computes `g` gives what lifting `g`
/// gives.
pub proof fn lemma_lift_computes<T: Ap<A, B, C>, A, B, C, F: FnOnce(A, B) -> C>(
    fa: TC1<T, A>,
    fb: TC1<T, B>,
    f: F,
    g: spec_fn(A, B) -> C,
    fc: TC1<T, C>,
)
    requires
        computes2(f, g),
        results_of_pairs(f, T::pairs(fa, fb), elements_of::<T, C>(fc)),
        fc == T::lifted(fa, fb, elements_of::<T, C>(fc)),
    ensures
        fc == lift2::<T, A, B, C>(fa, fb, g),
{
    assert(elements_of::<T, C>(fc) =~= T::pairs(fa, fb).map_values(
        |p: (A, B)| g(p.0, p.1),
    ));
}

/// The value that applying the mathematical functions held by `ff` to the
/// elements of `fa` gives.
pub open spec fn applied<T: Ap<spec_fn(A) -> B, A, B>, A, B>(
    ff: TC1<T, spec_fn(A) -> B>,
    fa: TC1<T, A>,
) -> TC1<T, B> {
    T::lifted(ff, fa, T::pairs(ff, fa).map_values(|p: (spec_fn(A) -> B, A)| (p.0)(p.1)))
}

/// `ap` as a method of the value that holds the functions.
pub trait ApSyntax<TC, A, B, F: Fn(A) -> B>: ConstructableTySyntax1<TC, F> where
    TC: Ap<F, A, B> + ForAllConstructedTy1<F, ConstructedType = Self>,
 {
    /// Applies the functions that `self` holds to the elements of `fa`.
    fn ap(self, fa: TC1<TC, A>) -> (fb: TC1<TC, B>)
        requires
            applies_all(TC::pairs(self, fa)),
        ensures
            results_of_applying(TC::pairs(self, fa), elements_of::<TC, B>(fb)),
            fb == TC::lifted(self, fa, elements_of::<TC, B>(fb)),
    ;
}

/// `lift_2a` as a method of the pair of the values to lift over.
pub trait Lift2ASyntax<A, B, T, TA, TB>: Sized where
    T: ForAllConstructedTy1<A, ConstructedType = TA> + ForAllConstructedTy1<B, ConstructedType = TB>,
    TA: ConstructableTySyntax1<T, A>,
    TB: ConstructableTySyntax1<T, B>,
 {
    /// The pair as a pair of constructed values.
    spec fn operands(self) -> (TA, TB);

    /// Applies `f` to the pairs of elements of the two values.
    fn lift_2a<C, F: Fn(A, B) -> C>(self, f: F) -> (fc: TC1<T, C>) where T: Ap<A, B, C>
        requires
            accepts_all_pairs(f, <T as Ap<A, B, C>>::pairs(self.operands().0, self.operands().1)),
        ensures
            results_of_pairs(
                f,
                <T as Ap<A, B, C>>::pairs(self.operands().0, self.operands().1),
                elements_of::<T, C>(fc),
            ),
            fc == <T as Ap<A, B, C>>::lifted(
                self.operands().0,
                self.operands().1,
                elements_of::<T, C>(fc),
            ),
    ;
}

impl<TC, A, B, F: Fn(A) -> B, FA> ApSyntax<TC, A, B, F> for FA where
    TC: Ap<F, A, B> + ForAllConstructedTy1<F, ConstructedType = FA>,
    FA: ConstructableTy1<Constructor = TC, GenericParameter1 = F>,
 {
    fn ap(self, fa: TC1<TC, A>) -> (fb: TC1<TC, B>) {
        TC::ap(self.reify1(), fa)
    }
}

impl<A, B, T, TA, TB> Lift2ASyntax<A, B, T, TA, TB> for (TA, TB) where
    T: ForAllConstructedTy1<A, ConstructedType = TA> + ForAllConstructedTy1<B, ConstructedType = TB>,
    TA: ConstructableTySyntax1<T, A>,
    TB: ConstructableTySyntax1<T, B>,
 {
    open spec fn operands(self) -> (TA, TB) {
        self
    }

    fn lift_2a<C, F: Fn(A, B) -> C>(self, f: F) -> (fc: TC1<T, C>) where T: Ap<A, B, C> {
        <T as Ap<A, B, C>>::lift_2a(self.0.reify1(), self.1.reify1(), f)
    }
}

/// `ap_mut` as a method of the value that holds the functions.
pub trait ApMutSyntax<TC, A, B, F: FnMut(A) -> B>: ConstructableTySyntax1<TC, F> where
    TC: ApMut<F, A, B> + ForAllConstructedTy1<F, ConstructedType = Self>,
 {
    /// Applies the functions that `self` holds to the elements of `fa`.
    fn ap_mut(self, fa: TC1<TC, A>) -> (fb: TC1<TC, B>)
        requires
            applies_all(TC::pairs(self, fa)),
        ensures
            results_of_applying(TC::pairs(self, fa), elements_of::<TC, B>(fb)),
            fb == TC::lifted(self, fa, elements_of::<TC, B>(fb)),
    ;
}

/// `lift_2a_mut` as a method of the pair of the values to lift over.
pub trait Lift2AMutSyntax<A, B, T, TA, TB>: Sized where
    T: ForAllConstructedTy1<A, ConstructedType = TA> + ForAllConstructedTy1<B, ConstructedType = TB>,
    TA: ConstructableTySyntax1<T, A>,
    TB: ConstructableTySyntax1<T, B>,
 {
    /// The pair as a pair of constructed values.
    spec fn operands(self) -> (TA, TB);

    /// Applies `f` to the pairs of elements of the two values.
    fn lift_2a_mut<C, F: FnMut(A, B) -> C>(self, f: F) -> (fc: TC1<T, C>) where T: ApMut<A, B, C>
        requires
            accepts_all_pairs(f, <T as ApMut<A, B, C>>::pairs(self.operands().0, self.operands().1)),
        ensures
            results_of_pairs(
                f,
                <T as ApMut<A, B, C>>::pairs(self.operands().0, self.operands().1),
                elements_of::<T, C>(fc),
            ),
            fc == <T as ApMut<A, B, C>>::lifted(
                self.operands().0,
                self.operands().1,
                elements_of::<T, C>(fc),
            ),
    ;
}

impl<TC, A, B, F: FnMut(A) -> B, FA> ApMutSyntax<TC, A, B, F> for FA where
    TC: ApMut<F, A, B> + ForAllConstructedTy1<F, ConstructedType = FA>,
    FA: ConstructableTy1<Constructor = TC, GenericParameter1 = F>,
 {
    fn ap_mut(self, fa: TC1<TC, A>) -> (fb: TC1<TC, B>) {
        TC::ap_mut(self.reify1(), fa)
    }
}

impl<A, B, T, TA, TB> Lift2AMutSyntax<A, B, T, TA, TB> for (TA, TB) where
    T: ForAllConstructedTy1<A, ConstructedType = TA> + ForAllConstructedTy1<B, ConstructedType = TB>,
    TA: ConstructableTySyntax1<T, A>,
    TB: ConstructableTySyntax1<T, B>,
 {
    open spec fn operands(self) -> (TA, TB) {
        self
    }

    fn lift_2a_mut<C, F: FnMut(A, B) -> C>(self, f: F) -> (fc: TC1<T, C>) where T: ApMut<A, B, C> {
        <T as ApMut<A, B, C>>::lift_2a_mut(self.0.reify1(), self.1.reify1(), f)
    }
}

/// `ap_once` as a method of the value that holds the functions.
pub trait ApOnceSyntax<TC, A, B, F: FnOnce(A) -> B>: ConstructableTySyntax1<TC, F> where
    TC: ApOnce<F, A, B> + ForAllConstructedTy1<F, ConstructedType = Self>,
 {
    /// Applies the functions that `self` holds to the elements of `fa`.
    fn ap_once(self, fa: TC1<TC, A>) -> (fb: TC1<TC, B>)
        requires
            applies_all(TC::pairs(self, fa)),
        ensures
            results_of_applying(TC::pairs(self, fa), elements_of::<TC, B>(fb)),
            fb == TC::lifted(self, fa, elements_of::<TC, B>(fb)),
    ;
}

/// `lift_2a_once` as a method of the pair of the values to lift over.
pub trait Lift2AOnceSyntax<A, B, T, TA, TB>: Sized where
    T: ForAllConstructedTy1<A, ConstructedType = TA> + ForAllConstructedTy1<B, ConstructedType = TB>,
    TA: ConstructableTySyntax1<T, A>,
    TB: ConstructableTySyntax1<T, B>,
 {
    /// The pair as a pair of constructed values.
    spec fn operands(self) -> (TA, TB);

    /// Applies `f` to the pairs of elements of the two values.
    fn lift_2a_once<C, F: FnOnce(A, B) -> C>(self, f: F) -> (fc: TC1<T, C>) where T: ApOnce<A, B, C>
        requires
            accepts_all_pairs(f, <T as ApOnce<A, B, C>>::pairs(self.operands().0, self.operands().1)),
        ensures
            results_of_pairs(
                f,
                <T as ApOnce<A, B, C>>::pairs(self.operands().0, self.operands().1),
                elements_of::<T, C>(fc),
            ),
            fc == <T as ApOnce<A, B, C>>::lifted(
                self.operands().0,
                self.operands().1,
                elements_of::<T, C>(fc),
            ),
    ;
}

impl<TC, A, B, F: FnOnce(A) -> B, FA> ApOnceSyntax<TC, A, B, F> for FA where
    TC: ApOnce<F, A, B> + ForAllConstructedTy1<F, ConstructedType = FA>,
    FA: ConstructableTy1<Constructor = TC, GenericParameter1 = F>,
 {
    fn ap_once(self, fa: TC1<TC, A>) -> (fb: TC1<TC, B>) {
        TC::ap_once(self.reify1(), fa)
    }
}

impl<A, B, T, TA, TB> Lift2AOnceSyntax<A, B, T, TA, TB> for (TA, TB) where
    T: ForAllConstructedTy1<A, ConstructedType = TA> + ForAllConstructedTy1<B, ConstructedType = TB>,
    TA: ConstructableTySyntax1<T, A>,
    TB: ConstructableTySyntax1<T, B>,
 {
    open spec fn operands(self) -> (TA, TB) {
        self
    }

    fn lift_2a_once<C, F: FnOnce(A, B) -> C>(self, f: F) -> (fc: TC1<T, C>) where T: ApOnce<A, B, C> {
        <T as ApOnce<A, B, C>>::lift_2a_once(self.0.reify1(), self.1.reify1(), f)
    }
}

} // verus!
