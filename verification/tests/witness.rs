use hkts::traits::Func;
use hkts::traits::Is;
use hkts::typelevel::clone::is_clone;
use hkts::typelevel::clone::CloneInstance;
use hkts::typelevel::clone::CloneWit;
use hkts::typelevel::clone::WithClone;
use hkts::typelevel::typewitness::With;
use hkts::typelevel::unit::is_unit;
use hkts::typelevel::unit::UnitWit;
use hkts::typelevel::unit::WithUnit;
use std::cmp::Ordering;
use std::collections::hash_map::DefaultHasher;
use std::hash::Hash;
use std::hash::Hasher;

fn hash_of<T: Hash>(value: &T) -> u64 {
    let mut hasher = DefaultHasher::new();
    value.hash(&mut hasher);
    hasher.finish()
}

#[test]
fn clone_witnesses_are_all_equal() {
    let a = is_clone::<String>();
    let b = CloneWit::<String>::new();
    let c = CloneWit::<String>::default();
    assert!(a == b);
    assert!(b == c);
    assert!(!(a != c));
    assert_eq!(a.partial_cmp(&b), Some(Ordering::Equal));
    assert_eq!(a.cmp(&c), Ordering::Equal);
    assert_eq!(hash_of(&a), hash_of(&b));
}

#[test]
fn clone_witnesses_are_copied_freely() {
    let a = is_clone::<Vec<u8>>();
    let b = a;
    let c = a.clone();
    assert!(a == b);
    assert!(a == c);
    assert_eq!(std::mem::size_of::<CloneWit<Vec<u8>>>(), 0);
}

#[test]
fn unit_witnesses_are_all_equal() {
    let a = is_unit::<str>();
    let b = UnitWit::<str>::new();
    let c = UnitWit::<str>::default();
    assert!(a == b);
    assert!(b == c);
    assert_eq!(a.partial_cmp(&b), Some(Ordering::Equal));
    assert_eq!(a.cmp(&c), Ordering::Equal);
    assert_eq!(hash_of(&a), hash_of(&b));
    let d = a;
    assert!(a.clone() == d);
    assert_eq!(std::mem::size_of::<UnitWit<str>>(), 0);
}

#[test]
fn unit_witness_needs_no_capability() {
    struct Opaque;
    let a = is_unit::<Opaque>();
    let b = UnitWit::<Opaque>::new();
    assert!(a == b);
    let held: WithUnit<Opaque> = With::new(Opaque, a);
    let (_value, witness) = held.tuple();
    assert!(witness == b);
}

#[test]
fn clone_with_clones_the_value() {
    let text = String::from("abc");
    let copy = text.clone_with(&is_clone());
    assert_eq!(copy, "abc");
    assert_eq!(text, "abc");
    assert_eq!(5_u8.clone_with(&CloneWit::new()), 5);
}

#[test]
fn value_with_witness_clones_by_the_witness() {
    let held: WithClone<Vec<u8>> = With::new(vec![1, 2, 3], is_clone());
    let copy = held.clone();
    assert_eq!(copy.value, vec![1, 2, 3]);
    assert_eq!(held.value, vec![1, 2, 3]);
    assert!(copy.witness == held.witness);
    let (value, witness) = held.tuple();
    assert_eq!(value, &vec![1, 2, 3]);
    assert!(witness == is_clone());
}

#[test]
fn every_type_is_itself() {
    assert_eq!(5_u8.refl(), 5);
    assert_eq!(<u8 as Is>::inv_refl(6), 6);
    let text = String::from("x");
    assert_eq!(Is::refl_ref(&text), "x");
    assert_eq!(<String as Is>::inv_refl_ref(&text), "x");
    assert_eq!(text.clone().refl(), text);
}

#[test]
fn writing_through_a_reflected_borrow_writes_to_the_value() {
    let mut n = 1_u32;
    *Is::refl_mut(&mut n) = 9;
    assert_eq!(n, 9);
    *<u32 as Is>::inv_refl_mut(&mut n) += 1;
    assert_eq!(n, 10);
}

struct Halve;

impl Func<u32> for Halve {
    type Output = u32;

    fn accepts(_i: u32) -> bool {
        true
    }

    fn yields(i: u32, o: u32) -> bool {
        o == i / 2
    }

    fn call(i: u32) -> u32 {
        i / 2
    }
}

#[test]
fn a_named_function_is_called_without_a_value() {
    assert_eq!(<Halve as Func<u32>>::call(9), 4);
    assert!(<Halve as Func<u32>>::yields(9, Halve::call(9)));
}
