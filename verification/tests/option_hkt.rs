use hkts::family_pattern::syntax::ApSyntax;
use hkts::family_pattern::syntax::BindSyntax;
use hkts::family_pattern::syntax::FunctorSyntax;
use hkts::family_pattern::syntax::Lift2ASyntax;
use hkts::family_pattern::syntax::PureSyntax;
use std::ops::Add;

fn double<T: Add<T, Output = T> + Clone>(x: T) -> T {
    x.clone() + x
}

fn checked_double(x: u32) -> Option<u32> {
    x.checked_add(x)
}

#[test]
pub fn option_hkt() {
    // pure
    let pure_u32 = 12_u32.pure::<Option<_>>();
    let pure_str = "some_string".pure::<Option<_>>();
    let pure_double_u32 = double::<u32>.pure::<Option<_>>();
    assert_eq!(pure_u32, Some(12));
    assert_eq!(pure_str, Some("some_string"));

    // fmap, fconst, fvoid
    let fmapped = pure_u32.fmap(double);
    assert_eq!(fmapped, Some(24));
    let fvoid_ignored = pure_str.fvoid();
    assert_eq!(fvoid_ignored, Some(()));
    let fconst_ignored = fvoid_ignored.fconst(33_u32);
    assert_eq!(fconst_ignored, Some(33));

    // ap, lift_2a
    let applicative_apped = pure_double_u32.ap(fconst_ignored);
    assert_eq!(applicative_apped, Some(66));
    let lifted_2a = (fmapped, applicative_apped).lift_2a(Add::add);
    assert_eq!(lifted_2a, Some(90));

    // bind
    let bind_checked_doubling = lifted_2a.bind(checked_double);
    assert_eq!(bind_checked_doubling, Some(180));
}
