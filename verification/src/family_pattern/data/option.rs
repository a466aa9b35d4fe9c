//! The type constructor of `Option<_>`, with its typeclass instances.

use crate::family_pattern::ty_constructor::ConstructableTy1;
use crate::family_pattern::ty_constructor::elements_of;
use crate::family_pattern::ty_constructor::ForAllConstructedTy1;
use crate::family_pattern::ty_constructor::TC1;
use crate::family_pattern::ty_constructor::TyConstructor1;
use crate::family_pattern::typeclasses::ap::Ap;
use crate::family_pattern::typeclasses::ap::ApMut;
use crate::family_pattern::typeclasses::ap::ApOnce;
use crate::family_pattern::typeclasses::applicative::Applicative;
use crate::family_pattern::typeclasses::applicative::ApplicativeLaws;
use crate::family_pattern::typeclasses::bind::BindOnce;
use crate::family_pattern::typeclasses::foldable::FoldableOnce;
use crate::family_pattern::typeclasses::functor::Functor;
use crate::family_pattern::typeclasses::functor::FunctorOnce;
use crate::family_pattern::typeclasses::functor::lemma_fmap_computes;
use crate::family_pattern::typeclasses::functor::mapped;
use crate::family_pattern::typeclasses::monad::MonadLaws;
use crate::family_pattern::typeclasses::monad::MonadTry;
use crate::family_pattern::typeclasses::monoid::Monoid;
use crate::family_pattern::typeclasses::outcomes::applies_all;
use crate::family_pattern::typeclasses::outcomes::fold_left_results;
use crate::family_pattern::typeclasses::outcomes::fold_right_results;
use crate::family_pattern::typeclasses::outcomes::post_of2;
use crate::family_pattern::typeclasses::outcomes::pre_of2;
use crate::family_pattern::typeclasses::outcomes::results_of_applying;
use crate::family_pattern::typeclasses::pure::Pure;
use crate::family_pattern::typeclasses::semigroup::Semigroup;
use crate::family_pattern::typeclasses::traverse::TraverseOnce;
use std::convert::Infallible;
use std::ops::ControlFlow;
use vstd::prelude::*;

verus! {

/// The type constructor of the `Option<_>` data type.
#[derive(Copy, Clone, PartialEq, Eq, Hash, Debug, PartialOrd, Ord)]
pub struct OptionConstructor;

impl<T> ConstructableTy1 for Option<T> {
    type GenericParameter1 = T;

    type Constructor = OptionConstructor;
}

/// The shape of an option says whether it holds a value.
impl TyConstructor1 for OptionConstructor {
    type Shape = bool;

    open spec fn arity(shape: bool) -> nat {
        if shape {
            1
        } else {
            0
        }
    }
}

/// An option holds its value, if it has one.
impl<T> ForAllConstructedTy1<T> for OptionConstructor {
    type ConstructedType = Option<T>;

    open spec fn shape(ta: Option<T>) -> bool {
        ta is Some
    }

    open spec fn elements(ta: Option<T>) -> Seq<T> {
        match ta {
            Some(a) => seq![a],
            None => Seq::empty(),
        }
    }

    open spec fn assembled(shape: bool, elements: Seq<T>) -> Option<T> {
        if shape {
            Some(elements[0])
        } else {
            None
        }
    }

    proof fn lemma_assembled(ta: Option<T>) {
    }

    proof fn lemma_taken_apart(shape: bool, elements: Seq<T>) {
        assert(Self::elements(Self::assembled(shape, elements)) =~= elements);
    }
}

/// Options of a semigroup combine by keeping whichever side is present,
/// and by combining the contents when both are.
impl<T: Semigroup> Semigroup for Option<T> {
    open spec fn combined(self, other: Self) -> Self {
        match (self, other) {
            (None, b) => b,
            (a, None) => a,
            (Some(a), Some(b)) => Some(a.combined(b)),
        }
    }

    proof fn lemma_associative(a: Self, b: Self, c: Self) {
        if let (Some(x), Some(y), Some(z)) = (a, b, c) {
            T::lemma_associative(x, y, z);
        }
    }

    fn scombine(self, other: Self) -> (r: Self) {
        match (self, other) {
            (None, b) => b,
            (a, None) => a,
            (Some(a), Some(b)) => Some(a.scombine(b)),
        }
    }
}

/// Two present options combine into the option of the combination of
/// their contents.
pub proof fn lemma_combined_some<T: Semigroup>(a: T, b: T)
    ensures
        Some(a).combined(Some(b)) == Some(a.combined(b)),
{
}

/// The absent option is the identity of the combination.
impl<T: Semigroup> Monoid for Option<T> {
    open spec fn empty() -> Self {
        None
    }

    proof fn lemma_left_identity(a: Self) {
    }

    proof fn lemma_right_identity(a: Self) {
    }

    fn mempty() -> (r: Self) {
        None
    }
}

/// Mapping over an option applies the function to its value, if it has
/// one.
impl<A, B> FunctorOnce<A, B> for OptionConstructor {
    fn fmap_once<F: FnOnce(A) -> B>(fa: Option<A>, f: F) -> (fb: Option<B>) {
        proof {
            if fa is Some {
                assert(elements_of::<Self, A>(fa)[0] == fa->0);
            }
        }
        fa.map(f)
    }
}

impl<A> Pure<A> for OptionConstructor {
    open spec fn unit(a: A) -> Option<A> {
        Some(a)
    }

    proof fn lemma_unit_elements(a: A) {
    }

    fn pure(a: A) -> (ta: Option<A>) {
        Some(a)
    }
}

/// Lifting over two options applies the function when both are present.
impl<A, B, C> ApOnce<A, B, C> for OptionConstructor {
    open spec fn pairs(fa: Option<A>, fb: Option<B>) -> Seq<(A, B)> {
        match (fa, fb) {
            (Some(a), Some(b)) => seq![(a, b)],
            _ => Seq::empty(),
        }
    }

    open spec fn lifted(fa: Option<A>, fb: Option<B>, cs: Seq<C>) -> Option<C> {
        match (fa, fb) {
            (Some(_), Some(_)) => Some(cs[0]),
            _ => None,
        }
    }

    fn lift_2a_once<F: FnOnce(A, B) -> C>(fa: Option<A>, fb: Option<B>, f: F) -> (fc: Option<C>) {
        match (fa, fb) {
            (Some(a), Some(b)) => {
                assert(<Self as ApOnce<A, B, C>>::pairs(fa, fb)[0] == (a, b));
                Some(f(a, b))
            },
            _ => None,
        }
    }
}

/// Whether `fb` is what applying the function of `ff`, if there is one, to
/// the value of `fa`, if there is one, may give.
pub open spec fn applies_to<F: FnOnce(A) -> B, A, B>(
    ff: Option<F>,
    fa: Option<A>,
    fb: Option<B>,
) -> bool {
    match (ff, fa) {
        (Some(f), Some(a)) => fb is Some && f.ensures((a, ), fb->0),
        _ => fb is None,
    }
}

/// What wrapping a function and applying an option of a function ask and
/// give, in each tier, stated for any function type, the types of closures
/// and of named functions included.
pub proof fn lemma_option_of_function<F: FnOnce(A) -> B, A, B>(
    f: F,
    ff: Option<F>,
    fa: Option<A>,
    fb: Option<B>,
)
    ensures
        <OptionConstructor as Pure<F>>::unit(f) == Some(f),
        applies_all(<OptionConstructor as ApOnce<F, A, B>>::pairs(ff, fa)) <==> (ff is Some
            && fa is Some ==> ff->0.requires((fa->0, ))),
        applies_all(<OptionConstructor as ApMut<F, A, B>>::pairs(ff, fa)) <==> (ff is Some
            && fa is Some ==> ff->0.requires((fa->0, ))),
        applies_all(<OptionConstructor as Ap<F, A, B>>::pairs(ff, fa)) <==> (ff is Some
            && fa is Some ==> ff->0.requires((fa->0, ))),
        applies_to(ff, fa, fb) <==> results_of_applying(
            <OptionConstructor as ApOnce<F, A, B>>::pairs(ff, fa),
            elements_of::<OptionConstructor, B>(fb),
        ) && fb == <OptionConstructor as ApOnce<F, A, B>>::lifted(
            ff,
            fa,
            elements_of::<OptionConstructor, B>(fb),
        ),
        applies_to(ff, fa, fb) <==> results_of_applying(
            <OptionConstructor as ApMut<F, A, B>>::pairs(ff, fa),
            elements_of::<OptionConstructor, B>(fb),
        ) && fb == <OptionConstructor as ApMut<F, A, B>>::lifted(
            ff,
            fa,
            elements_of::<OptionConstructor, B>(fb),
        ),
        applies_to(ff, fa, fb) <==> results_of_applying(
            <OptionConstructor as Ap<F, A, B>>::pairs(ff, fa),
            elements_of::<OptionConstructor, B>(fb),
        ) && fb == <OptionConstructor as Ap<F, A, B>>::lifted(
            ff,
            fa,
            elements_of::<OptionConstructor, B>(fb),
        ),
{
    let pairs = <OptionConstructor as ApOnce<F, A, B>>::pairs(ff, fa);
    let bs = elements_of::<OptionConstructor, B>(fb);
    if ff is Some && fa is Some {
        assert(pairs[0] == (ff->0, fa->0));
        if fb is Some {
            assert(bs[0] == fb->0);
        }
    }
}

impl<A, B, C> ApplicativeLaws<A, B, C> for OptionConstructor {
    proof fn lemma_ap_identity(x: Option<A>) {
    }

    proof fn lemma_lift_pure(a: A, b: B, g: spec_fn(A, B) -> C) {
    }
}

/// Binding continues a present value and leaves an absent one absent.
impl<A, B> BindOnce<A, B> for OptionConstructor {
    open spec fn joined(ta: Option<A>, parts: Seq<Option<B>>) -> Option<B> {
        match ta {
            Some(_) => parts[0],
            None => None,
        }
    }

    fn bind_once<F: FnOnce(A) -> Option<B>>(ta: Option<A>, f: F) -> (tb: Option<B>) {
        proof {
            if ta is Some {
                assert(elements_of::<Self, A>(ta)[0] == ta->0);
            }
        }
        let tb = ta.and_then(f);
        proof {
            let parts = if ta is Some {
                seq![tb]
            } else {
                Seq::empty()
            };
            assert(tb == <Self as BindOnce<A, B>>::joined(ta, parts));
        }
        tb
    }
}

impl<A, B, C> MonadLaws<A, B, C> for OptionConstructor {
    proof fn lemma_bind_pure(a: A, k: spec_fn(A) -> Option<B>) {
    }

    proof fn lemma_bind_unit(x: Option<B>) {
    }

    proof fn lemma_bind_associative(
        x: Option<A>,
        f: spec_fn(A) -> Option<B>,
        g: spec_fn(B) -> Option<C>,
    ) {
    }
}

/// Folding an option applies the function to its value, if it has one.
impl<A> FoldableOnce<A> for OptionConstructor {
    fn foldr_once<S, F: FnOnce(A, S) -> S>(ta: Option<A>, s: S, f: F) -> (r: S) {
        let ghost es = elements_of::<Self, A>(ta);
        let ghost step = post_of2(f);
        match ta {
            None => {
                assert(fold_right_results(es, s, step, s));
                s
            },
            Some(a) => {
                proof {
                    assert(es[0] == a);
                    assert(fold_right_results(es.drop_first(), s, step, s));
                    assert(pre_of2(f)(es[0], s));
                }
                let r = f(a, s);
                assert(step(es[0], s, r));
                r
            },
        }
    }

    fn foldl_once<S, F: FnOnce(S, A) -> S>(ta: Option<A>, s: S, f: F) -> (r: S) {
        let ghost es = elements_of::<Self, A>(ta);
        let ghost step = post_of2(f);
        match ta {
            None => {
                assert(fold_left_results(es, s, step, s));
                s
            },
            Some(a) => {
                assert(es[0] == a);
                let r = f(s, a);
                proof {
                    assert(step(s, es[0], r));
                    assert(fold_left_results(es.drop_first(), r, step, r));
                }
                r
            },
        }
    }
}

/// The function that wraps a value in `Some`.
pub open spec fn some_of<B>() -> spec_fn(B) -> Option<B> {
    |b: B| Some(b)
}

/// Traversing an option wraps the absent option, and maps `Some` over what
/// the function returns for a present value.
impl<G, A, B> TraverseOnce<G, A, B> for OptionConstructor where
    G: Applicative<B, TC1<Self, B>, TC1<Self, B>>,
 {
    open spec fn traversed(ta: Option<A>, parts: Seq<TC1<G, B>>) -> TC1<G, Option<B>> {
        match ta {
            Some(_) => mapped::<G, B, Option<B>>(parts[0], some_of::<B>()),
            None => G::unit(None),
        }
    }

    fn traverse_once<F: FnOnce(A) -> TC1<G, B>>(ta: Option<A>, f: F) -> (r: TC1<G, Option<B>>) {
        match ta {
            None => {
                let r = <G as Pure<Option<B>>>::pure(None);
                proof {
                    let parts = Seq::<TC1<G, B>>::empty();
                    assert(r == <Self as TraverseOnce<G, A, B>>::traversed(ta, parts));
                }
                r
            },
            Some(a) => {
                assert(elements_of::<Self, A>(ta)[0] == a);
                let part = f(a);
                let wrap = |b: B| -> (o: Option<B>)
                    ensures
                        o == Some(b),
                    { Some(b) };
                let r = <G as Functor<B, Option<B>>>::fmap(part, wrap);
                proof {
                    lemma_fmap_computes::<G, B, Option<B>, _>(part, wrap, some_of::<B>(), r);
                    let parts = seq![part];
                    assert(r == <Self as TraverseOnce<G, A, B>>::traversed(ta, parts));
                }
                r
            },
        }
    }
}

/// A present option goes on with its value; an absent one stops.
impl<A> MonadTry<A> for OptionConstructor {
    fn into_control_flow(ma: Option<A>) -> (flow: ControlFlow<Option<Infallible>, A>) {
        match ma {
            Some(a) => ControlFlow::Continue(a),
            None => ControlFlow::Break(None),
        }
    }
}

} // verus!
