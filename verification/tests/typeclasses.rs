use hkts::family_pattern::data::option::OptionConstructor;
use hkts::family_pattern::syntax::ApMutSyntax;
use hkts::family_pattern::syntax::ApOnceSyntax;
use hkts::family_pattern::syntax::ApSyntax;
use hkts::family_pattern::syntax::BindMutSyntax;
use hkts::family_pattern::syntax::BindOnceSyntax;
use hkts::family_pattern::syntax::BindSyntax;
use hkts::family_pattern::syntax::FoldableMutSyntax;
use hkts::family_pattern::syntax::FoldableOnceSyntax;
use hkts::family_pattern::syntax::FoldableSyntax;
use hkts::family_pattern::syntax::FunctorMutSyntax;
use hkts::family_pattern::syntax::FunctorOnceSyntax;
use hkts::family_pattern::syntax::FunctorSyntax;
use hkts::family_pattern::syntax::Lift2AMutSyntax;
use hkts::family_pattern::syntax::Lift2AOnceSyntax;
use hkts::family_pattern::syntax::Lift2ASyntax;
use hkts::family_pattern::syntax::PureSyntax;
use hkts::family_pattern::syntax::TraverseMutSyntax;
use hkts::family_pattern::syntax::TraverseOnceSyntax;
use hkts::family_pattern::syntax::TraverseSyntax;
use hkts::family_pattern::typeclasses::ap::Ap;
use hkts::family_pattern::typeclasses::ap::ApOnce;
use hkts::family_pattern::typeclasses::bind::Bind;
use hkts::family_pattern::typeclasses::bind::BindMut;
use hkts::family_pattern::typeclasses::bind::BindOnce;
use hkts::family_pattern::typeclasses::foldable::Foldable;
use hkts::family_pattern::typeclasses::foldable::FoldableMut;
use hkts::family_pattern::typeclasses::foldable::FoldableOnce;
use hkts::family_pattern::typeclasses::functor::fvoid;
use hkts::family_pattern::typeclasses::functor::Functor;
use hkts::family_pattern::typeclasses::functor::FunctorMut;
use hkts::family_pattern::typeclasses::functor::FunctorOnce;
use hkts::family_pattern::typeclasses::monad::MonadControlFlow;
use hkts::family_pattern::typeclasses::monad::MonadTry;
use hkts::family_pattern::typeclasses::monad::MonadTrySyntax;
use hkts::family_pattern::typeclasses::monoid::Monoid;
use hkts::family_pattern::typeclasses::pure::Pure;
use hkts::family_pattern::typeclasses::semigroup::Semigroup;
use hkts::family_pattern::typeclasses::traverse::Traverse;
use hkts::family_pattern::typeclasses::traverse::TraverseOnce;
use std::convert::Infallible;
use std::ops::ControlFlow;

/// Integers under addition.
#[derive(Debug, Clone, Copy, PartialEq, Eq)]
struct Sum(i32);

impl Semigroup for Sum {
    fn combined(self, other: Self) -> Self {
        Sum(self.0.wrapping_add(other.0))
    }

    fn lemma_associative(_a: Self, _b: Self, _c: Self) {}

    fn scombine(self, other: Self) -> Self {
        Sum(self.0.wrapping_add(other.0))
    }
}

/// Strings under concatenation.
#[derive(Debug, Clone, PartialEq, Eq)]
struct Text(String);

impl Semigroup for Text {
    fn combined(self, other: Self) -> Self {
        Text(format!("{}{}", self.0, other.0))
    }

    fn lemma_associative(_a: Self, _b: Self, _c: Self) {}

    fn scombine(self, other: Self) -> Self {
        Text(format!("{}{}", self.0, other.0))
    }
}

fn identity<T>(x: T) -> T {
    x
}

fn double(x: i32) -> i32 {
    x * 2
}

fn succ(x: i32) -> i32 {
    x + 1
}

fn checked_double(x: i32) -> Option<i32> {
    x.checked_add(x)
}

fn positive(x: i32) -> Option<i32> {
    if x > 0 {
        Some(x)
    } else {
        None
    }
}

#[test]
fn pure_then_map_then_bind() {
    let five: Option<i32> = 5.pure::<Option<i32>>();
    assert_eq!(five, Some(5));
    let mapped = five.fmap(double);
    assert_eq!(mapped, Some(10));
    let bound = mapped.bind(checked_double);
    assert_eq!(bound, Some(20));
}

#[test]
fn functor_identity_law() {
    assert_eq!(Some(7).fmap(identity), Some(7));
    assert_eq!(None::<i32>.fmap(identity), None);
}

#[test]
fn functor_composition_law() {
    for x in [Some(3), Some(-8), None] {
        assert_eq!(x.fmap(double).fmap(succ), x.fmap(|a| succ(double(a))));
    }
    assert_eq!(Some(3).fmap(double).fmap(succ), Some(7));
}

#[test]
fn functor_tiers_agree() {
    assert_eq!(Some(4).fmap(double), Some(8));
    assert_eq!(Some(4).fmap_mut(double), Some(8));
    assert_eq!(Some(4).fmap_once(double), Some(8));
    assert_eq!(<OptionConstructor as Functor<i32, i32>>::fmap(Some(4), double), Some(8));
    assert_eq!(<OptionConstructor as FunctorMut<i32, i32>>::fmap_mut(Some(4), double), Some(8));
    assert_eq!(<OptionConstructor as FunctorOnce<i32, i32>>::fmap_once(Some(4), double), Some(8));
    assert_eq!(<OptionConstructor as FunctorOnce<i32, i32>>::fmap_once(None, double), None);
}

#[test]
fn functor_once_takes_a_function_that_moves() {
    let owned = String::from("abc");
    let appended = Some(String::from("x")).fmap_once(move |s: String| owned + &s);
    assert_eq!(appended, Some(String::from("abcx")));
}

#[test]
fn fconst_and_fvoid_keep_the_shape() {
    assert_eq!(Some("a").fconst(9_u8), Some(9_u8));
    assert_eq!(None::<&str>.fconst(9_u8), None);
    assert_eq!(Some("a").fvoid(), Some(()));
    assert_eq!(None::<&str>.fvoid(), None);
    assert_eq!(<OptionConstructor as Functor<i32, u8>>::fconst(Some(1), 2_u8), Some(2_u8));
    assert_eq!(fvoid::<OptionConstructor, i32>(Some(1)), Some(()));
    assert_eq!(fvoid::<OptionConstructor, i32>(None), None);
}

#[test]
fn pure_wraps_in_some() {
    assert_eq!(<OptionConstructor as Pure<i32>>::pure(3), Some(3));
    assert_eq!('c'.pure::<Option<char>>(), Some('c'));
}

#[test]
fn applicative_identity_law() {
    for x in [Some(3), None] {
        let wrapped = (identity::<i32> as fn(i32) -> i32).pure::<Option<fn(i32) -> i32>>();
        assert_eq!(wrapped.ap(x), x);
    }
}

#[test]
fn applicative_lift_of_pure_law() {
    let lifted = (2.pure::<Option<i32>>(), 5.pure::<Option<i32>>()).lift_2a(|a, b| a * 10 + b);
    assert_eq!(lifted, (2 * 10 + 5).pure::<Option<i32>>());
    assert_eq!(lifted, Some(25));
}

#[test]
fn lift_needs_both_values() {
    let add = |a: i32, b: i32| a + b;
    assert_eq!((Some(1), Some(2)).lift_2a(add), Some(3));
    assert_eq!((Some(1), None::<i32>).lift_2a(add), None);
    assert_eq!((None::<i32>, Some(2)).lift_2a(add), None);
    assert_eq!((None::<i32>, None::<i32>).lift_2a(add), None);
    assert_eq!((Some(1), Some(2)).lift_2a_mut(add), Some(3));
    assert_eq!((Some(1), Some(2)).lift_2a_once(add), Some(3));
    assert_eq!(<OptionConstructor as ApOnce<i32, i32, i32>>::lift_2a_once(Some(4), Some(2), add), Some(6));
    assert_eq!(<OptionConstructor as Ap<i32, i32, i32>>::lift_2a(Some(4), None, add), None);
}

#[test]
fn lift_pairs_values_of_different_types() {
    let describe = |n: u8, s: &str| format!("{n}{s}");
    assert_eq!((Some(3_u8), Some("x")).lift_2a(describe), Some(String::from("3x")));
}

#[test]
fn ap_applies_a_wrapped_function() {
    assert_eq!(Some(double).ap(Some(21)), Some(42));
    assert_eq!(Some(double).ap(None), None);
    assert_eq!(None::<fn(i32) -> i32>.ap(Some(21)), None);
    assert_eq!(Some(double).ap_mut(Some(21)), Some(42));
    assert_eq!(Some(double).ap_once(Some(21)), Some(42));
}

#[test]
fn monad_left_identity_law() {
    for a in [1, 0, -4, i32::MAX] {
        assert_eq!(a.pure::<Option<i32>>().bind(checked_double), checked_double(a));
        assert_eq!(a.pure::<Option<i32>>().bind(positive), positive(a));
    }
}

#[test]
fn monad_right_identity_law() {
    for x in [Some(3), None] {
        assert_eq!(x.bind(|a: i32| a.pure::<Option<i32>>()), x);
    }
}

#[test]
fn monad_associativity_law() {
    for x in [Some(3), Some(-3), Some(i32::MAX), None] {
        let left = x.bind(positive).bind(checked_double);
        let right = x.bind(|a| positive(a).bind(checked_double));
        assert_eq!(left, right);
    }
    assert_eq!(Some(3).bind(positive).bind(checked_double), Some(6));
}

#[test]
fn bind_short_circuits_on_absence() {
    assert_eq!(None::<i32>.bind(checked_double), None);
    assert_eq!(Some(i32::MAX).bind(checked_double), None);
    assert_eq!(Some(2).bind_mut(checked_double), Some(4));
    assert_eq!(Some(2).bind_once(checked_double), Some(4));
    assert_eq!(<OptionConstructor as Bind<i32, i32>>::bind(Some(2), checked_double), Some(4));
    assert_eq!(<OptionConstructor as BindMut<i32, i32>>::bind_mut(Some(2), checked_double), Some(4));
    assert_eq!(<OptionConstructor as BindOnce<i32, i32>>::bind_once(None, checked_double), None);
}

#[test]
fn combine_none_with_some() {
    assert_eq!(None::<Sum>.scombine(Some(Sum(3))), Some(Sum(3)));
}

#[test]
fn combine_prefers_the_side_that_is_present() {
    for x in [None, Some(Sum(3)), Some(Sum(-7))] {
        assert_eq!(None.scombine(x), x);
        assert_eq!(x.scombine(None), x);
        assert_eq!(<Option<Sum> as Monoid>::mempty().scombine(x), x);
        assert_eq!(x.scombine(<Option<Sum> as Monoid>::mempty()), x);
    }
}

#[test]
fn combine_combines_the_contents_when_both_are_present() {
    assert_eq!(Some(Sum(3)).scombine(Some(Sum(4))), Some(Sum(3).scombine(Sum(4))));
    assert_eq!(Some(Sum(3)).scombine(Some(Sum(4))), Some(Sum(7)));
    assert_eq!(
        Some(Text(String::from("ab"))).scombine(Some(Text(String::from("cd")))),
        Some(Text(String::from("abcd")))
    );
}

#[test]
fn combine_is_associative() {
    let values = [None, Some(Sum(1)), Some(Sum(20))];
    for a in values {
        for b in values {
            for c in values {
                assert_eq!(a.scombine(b).scombine(c), a.scombine(b.scombine(c)));
            }
        }
    }
}

#[test]
fn combine_of_nested_options() {
    let inner: Option<Option<Sum>> = Some(None);
    assert_eq!(inner.scombine(Some(Some(Sum(2)))), Some(Some(Sum(2))));
    assert_eq!(None.scombine(inner), inner);
}

#[test]
fn mempty_is_none() {
    assert_eq!(<Option<Sum> as Monoid>::mempty(), None);
}

#[test]
fn folds_apply_the_function_to_the_value() {
    let sub = |a: i32, s: i32| a - s;
    let bus = |s: i32, a: i32| s - a;
    assert_eq!(Some(10).foldr(3, sub), 7);
    assert_eq!(Some(10).foldl(3, bus), -7);
    assert_eq!(None::<i32>.foldr(3, sub), 3);
    assert_eq!(None::<i32>.foldl(3, bus), 3);
    assert_eq!(Some(10).foldr_mut(3, sub), 7);
    assert_eq!(Some(10).foldl_mut(3, bus), -7);
    assert_eq!(Some(10).foldr_once(3, sub), 7);
    assert_eq!(Some(10).foldl_once(3, bus), -7);
    assert_eq!(<OptionConstructor as Foldable<i32>>::foldr(Some(10), 3, sub), 7);
    assert_eq!(<OptionConstructor as FoldableMut<i32>>::foldl_mut(Some(10), 3, bus), -7);
    assert_eq!(<OptionConstructor as FoldableOnce<i32>>::foldr_once(None, 3, sub), 3);
    assert_eq!(<OptionConstructor as FoldableOnce<i32>>::foldl_once(Some(1), 3, bus), 2);
}

#[test]
fn folds_may_change_the_accumulator_type() {
    let count = |s: &str, n: usize| n + s.len();
    assert_eq!(Some("four").foldr(1_usize, count), 5);
}

#[test]
fn mapping_folds_combine_in_a_monoid() {
    let wrap = |x: i32| Some(Sum(x));
    assert_eq!(Some(4).foldr_map(wrap), Some(Sum(4)));
    assert_eq!(Some(4).foldl_map(wrap), Some(Sum(4)));
    assert_eq!(None::<i32>.foldr_map(wrap), None);
    assert_eq!(None::<i32>.foldl_map(wrap), None);
    assert_eq!(Some(4).foldr_map_mut(wrap), Some(Sum(4)));
    assert_eq!(Some(4).foldl_map_mut(wrap), Some(Sum(4)));
    assert_eq!(Some(4).foldr_map_once(wrap), Some(Sum(4)));
    assert_eq!(Some(4).foldl_map_once(wrap), Some(Sum(4)));
    assert_eq!(<OptionConstructor as Foldable<i32>>::foldr_map(Some(4), wrap), Some(Sum(4)));
    assert_eq!(<OptionConstructor as FoldableOnce<i32>>::foldl_map_once(Some(4), wrap), Some(Sum(4)));
    let absent = |_: i32| None::<Sum>;
    assert_eq!(Some(4).foldr_map(absent), None);
}

#[test]
fn traverse_turns_the_option_inside_out() {
    let present: Option<Option<i32>> =
        <OptionConstructor as TraverseOnce<OptionConstructor, i32, i32>>::traverse_once(Some(3), positive);
    assert_eq!(present, Some(Some(3)));
    let stopped: Option<Option<i32>> =
        <OptionConstructor as TraverseOnce<OptionConstructor, i32, i32>>::traverse_once(Some(-3), positive);
    assert_eq!(stopped, None);
    let absent: Option<Option<i32>> =
        <OptionConstructor as TraverseOnce<OptionConstructor, i32, i32>>::traverse_once(None, positive);
    assert_eq!(absent, Some(None));
    let shared: Option<Option<i32>> =
        <OptionConstructor as Traverse<OptionConstructor, i32, i32>>::traverse(Some(3), positive);
    assert_eq!(shared, Some(Some(3)));
}

#[test]
fn traverse_as_a_method() {
    let a: Option<Option<i32>> = Some(3).traverse::<OptionConstructor, i32, _>(positive);
    assert_eq!(a, Some(Some(3)));
    let b: Option<Option<i32>> = Some(-3).traverse_mut::<OptionConstructor, i32, _>(positive);
    assert_eq!(b, None);
    let c: Option<Option<i32>> = None.traverse_once::<OptionConstructor, i32, _>(positive);
    assert_eq!(c, Some(None));
}

#[test]
fn control_flow_of_a_present_option_continues() {
    let held = Some(3).mtry();
    assert_eq!(held.branch(), ControlFlow::Continue(3));
    let made = MonadControlFlow::<OptionConstructor, i32>::new(Some(3));
    assert_eq!(made.branch(), ControlFlow::Continue(3));
}

#[test]
fn control_flow_of_an_absent_option_breaks() {
    let held = None::<i32>.mtry();
    assert_eq!(held.branch(), ControlFlow::Break(None));
    assert_eq!(
        <OptionConstructor as MonadTry<i32>>::into_control_flow(None),
        ControlFlow::Break(None::<Infallible>)
    );
}

#[test]
fn control_flow_from_output_continues_with_it() {
    let held = MonadControlFlow::<OptionConstructor, i32>::from_output(8);
    assert_eq!(held.branch(), ControlFlow::Continue(8));
}

#[test]
fn control_flow_from_residual_stays_stopped() {
    let residual = match None::<i32>.mtry().branch() {
        ControlFlow::Break(residual) => residual,
        ControlFlow::Continue(_) => unreachable!(),
    };
    let stopped = MonadControlFlow::<OptionConstructor, String>::from_residual(residual);
    assert_eq!(stopped.branch(), ControlFlow::Break(None));
}
