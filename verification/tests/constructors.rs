use hkts::data::htree::HFork;
use hkts::data::htree::HLeaf;
use hkts::data::htree::HTip;
use hkts::ext::BoxedSliceExt;
use hkts::ext::VecExt;
use hkts::family_pattern::data::option::OptionConstructor;
use hkts::family_pattern::data::result::ResultConstructor;
use hkts::family_pattern::data::result::ResultTConstructor;
use hkts::family_pattern::flip::Flipped;
use hkts::family_pattern::ty_constructor::witness1;
use hkts::family_pattern::ty_constructor::witness2;
use hkts::family_pattern::ty_constructor::witness3;
use hkts::family_pattern::ty_constructor::ConstructableTy3;
use hkts::family_pattern::ty_constructor::ConstructableTyExt1;
use hkts::family_pattern::ty_constructor::ConstructableTyExt2;
use hkts::family_pattern::ty_constructor::ConstructableTyExt3;
use hkts::family_pattern::ty_constructor::ForAllConstructedTy3;
use hkts::family_pattern::ty_constructor::TyConstructor3;
use hkts::family_pattern::ty_constructor::CT1;
use hkts::family_pattern::ty_constructor::CT2;
use hkts::family_pattern::ty_constructor::TC1;
use hkts::family_pattern::ty_constructor::TC2;
use hkts::func::constant;

#[test]
fn reifying_an_option_changes_nothing() {
    let reified: Option<u8> = Some(3_u8).reify1();
    assert_eq!(reified, Some(3));
    let absent: Option<u8> = None::<u8>.reify1();
    assert_eq!(absent, None);
    let same: TC1<OptionConstructor, &str> = Some("a").reify1();
    assert_eq!(same, Some("a"));
}

#[test]
fn reifying_a_result_changes_nothing() {
    let ok: Result<u8, &str> = Ok(3);
    let err: Result<u8, &str> = Err("no");
    let by_error: TC1<ResultTConstructor<u8>, &str> = ok.reify1();
    assert_eq!(by_error, Ok(3));
    let by_both: TC2<ResultConstructor, u8, &str> = err.reify2();
    assert_eq!(by_both, Err("no"));
}

#[test]
fn constructors_and_constructed_types_name_each_other() {
    let a: CT1<Option<u8>> = OptionConstructor;
    assert_eq!(a, OptionConstructor);
    let b: CT2<Result<u8, ()>> = ResultConstructor;
    assert_eq!(b, ResultConstructor);
    assert_eq!(ResultConstructor.clone(), ResultConstructor);
    assert_eq!(std::mem::size_of::<ResultTConstructor<String>>(), 0);
}

#[test]
fn witnesses_are_identity_functions() {
    assert_eq!(witness1::<OptionConstructor, u8>(Some(1)), Some(1));
    assert_eq!(witness1::<ResultTConstructor<u8>, ()>(Err(())), Err(()));
    assert_eq!(witness2::<ResultConstructor, u8, ()>(Ok(1)), Ok(1));
    assert_eq!(witness3::<TripleConstructor, u8, char, bool>(Triple(1, 'a', true)), Triple(1, 'a', true));
}

#[derive(Debug, PartialEq)]
struct Triple<A, B, C>(A, B, C);

struct TripleConstructor;

impl TyConstructor3 for TripleConstructor {}

impl<A, B, C> ForAllConstructedTy3<A, B, C> for TripleConstructor {
    type ConstructedType = Triple<A, B, C>;
}

impl<A, B, C> ConstructableTy3 for Triple<A, B, C> {
    type GenericParameter1 = A;
    type GenericParameter2 = B;
    type GenericParameter3 = C;
    type Constructor = TripleConstructor;
}

#[test]
fn reifying_a_type_of_three_arguments_changes_nothing() {
    let reified: Triple<u8, char, bool> = Triple(1_u8, 'a', true).reify3();
    assert_eq!(reified, Triple(1, 'a', true));
}

#[test]
fn flipped_holds_the_value() {
    let held: Flipped<Result<u8, &str>> = Flipped(Ok(3));
    assert_eq!(held.0, Ok(3));
}

#[test]
fn constant_function_ignores_its_argument() {
    let five = constant::<u8, &str>(5);
    assert_eq!(five("a"), 5);
    assert_eq!(five("b"), 5);
    let text = constant::<String, ()>(String::from("k"));
    assert_eq!(text(()), "k");
    assert_eq!(text(()), "k");
}

#[test]
fn vector_map_keeps_the_order() {
    let v = vec![1, 2, 3];
    assert_eq!(VecExt::map(v, |x: i32| x * 10), vec![10, 20, 30]);
    let empty: Vec<i32> = Vec::new();
    assert_eq!(VecExt::map(empty, |x: i32| x * 10), Vec::<i32>::new());
}

#[test]
fn vector_map_calls_the_function_in_order() {
    let mut seen = Vec::new();
    let lengths = VecExt::map(vec!["a", "bcd", "ef"], |s: &str| {
        seen.push(s);
        s.len()
    });
    assert_eq!(lengths, vec![1, 3, 2]);
    assert_eq!(seen, vec!["a", "bcd", "ef"]);
}

#[test]
fn boxed_slice_map_keeps_the_order() {
    let b: Box<[u8]> = vec![1, 2, 3].into_boxed_slice();
    let mapped: Box<[String]> = BoxedSliceExt::map(b, |x: u8| x.to_string());
    assert_eq!(mapped.len(), 3);
    assert_eq!(&*mapped, &[String::from("1"), String::from("2"), String::from("3")]);
}

#[test]
fn trees_hold_a_value_and_two_subtrees() {
    let leaf: HLeaf<u8> = HFork { value: 1, left: HTip, right: HTip };
    let tree = HFork { value: "root", left: leaf, right: HTip };
    assert_eq!(tree.left.value, 1);
    assert_eq!(tree.right, HTip);
    assert_eq!(tree.clone(), tree);
}
