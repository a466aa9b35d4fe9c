use hkts::data::hlist::h_cons;
use hkts::data::hlist::lift_from;
use hkts::data::hlist::HCons;
use hkts::data::hlist::HFoldLeftable;
use hkts::data::hlist::HFoldRightable;
use hkts::data::hlist::HFoldRightableOwned;
use hkts::data::hlist::HList;
use hkts::data::hlist::HMappable;
use hkts::data::hlist::HNil;
use hkts::data::hlist::HSeq;
use hkts::data::hlist::HZippable;
use hkts::data::hlist::IntoTuple2;
use hkts::data::hlist::LiftFrom;
use hkts::data::hlist::LiftInto;
use hkts::data::hlist::Plucker;
use hkts::data::hlist::Sculptor;
use hkts::data::hlist::Selector;
use hkts::data::indices::Here;
use hkts::data::indices::Suffixed;
use hkts::data::indices::There;

type Three = HCons<u32, HCons<&'static str, HCons<f64, HNil>>>;

fn three() -> Three {
    HNil.prepend(3.5_f64).prepend("a").prepend(1_u32)
}

fn numbers() -> HCons<i32, HCons<i32, HCons<i32, HNil>>> {
    h_cons(1, h_cons(2, h_cons(3, HNil)))
}

#[test]
fn get_by_type() {
    let list = three();
    let s: &&str = list.get();
    assert_eq!(*s, "a");
    let n: &u32 = list.get();
    assert_eq!(*n, 1);
    let f: &f64 = list.get();
    assert_eq!(*f, 3.5);
    assert_eq!(*list.get::<&str, _>(), "a");
}

#[test]
fn get_with_an_explicit_index() {
    let list = h_cons(1_u8, h_cons(2_u8, HNil));
    assert_eq!(*list.get::<u8, Here>(), 1);
    assert_eq!(*list.get::<u8, There<Here>>(), 2);
    assert_eq!(*Selector::<u8, There<Here>>::get(&list), 2);
}

#[test]
fn get_mut_changes_one_element() {
    let mut list = three();
    *list.get_mut::<&str, _>() = "b";
    assert_eq!(list, h_cons(1_u32, h_cons("b", h_cons(3.5_f64, HNil))));
    *list.get_mut::<u32, _>() += 41;
    assert_eq!(list, h_cons(42_u32, h_cons("b", h_cons(3.5_f64, HNil))));
    *Selector::<f64, There<There<Here>>>::get_mut(&mut list) = 0.5;
    assert_eq!(list.tail.tail.head, 0.5);
}

#[test]
fn pluck_by_type() {
    let (n, rest) = three().pluck::<u32, _>();
    assert_eq!(n, 1);
    assert_eq!(rest, h_cons("a", h_cons(3.5_f64, HNil)));
}

#[test]
fn pluck_from_the_middle_and_the_end() {
    let (s, rest): (&str, _) = three().pluck();
    assert_eq!(s, "a");
    assert_eq!(rest, h_cons(1_u32, h_cons(3.5_f64, HNil)));
    let (f, rest): (f64, _) = three().pluck();
    assert_eq!(f, 3.5);
    assert_eq!(rest, h_cons(1_u32, h_cons("a", HNil)));
    let (x, rest) = Plucker::<f64, There<There<Here>>>::pluck(three());
    assert_eq!((x, rest.head, rest.tail.head), (3.5, 1, "a"));
}

#[test]
fn pluck_then_put_back_recovers_the_list() {
    let (s, rest): (&str, _) = three().pluck();
    let back = h_cons(rest.head, h_cons(s, rest.tail));
    assert_eq!(back, three());
    let (n, rest): (u32, _) = three().pluck();
    assert_eq!(h_cons(n, rest), three());
}

#[test]
fn sculpt_reorders_and_leaves_the_rest() {
    let (shape, rest): (HCons<f64, HCons<u32, HNil>>, _) = three().sculpt();
    assert_eq!(shape, h_cons(3.5_f64, h_cons(1_u32, HNil)));
    assert_eq!(rest, h_cons("a", HNil));
}

#[test]
fn sculpt_of_nothing_and_of_everything() {
    let (shape, rest): (HNil, _) = three().sculpt();
    assert_eq!(shape, HNil);
    assert_eq!(rest, three());
    let (shape, rest): (HCons<&str, HCons<f64, HCons<u32, HNil>>>, _) = three().sculpt();
    assert_eq!(shape, h_cons("a", h_cons(3.5_f64, h_cons(1_u32, HNil))));
    assert_eq!(rest, HNil);
    let (shape, rest): (HNil, HNil) = HNil.sculpt();
    assert_eq!((shape, rest), (HNil, HNil));
}

#[test]
fn sculpt_then_recombine_recovers_the_elements() {
    let (shape, rest): (HCons<f64, HCons<u32, HNil>>, _) = three().sculpt();
    let recombined = shape + rest;
    let (again, nothing): (Three, _) = recombined.sculpt();
    assert_eq!(again, three());
    assert_eq!(nothing, HNil);
    let (shape, rest) = Sculptor::<HCons<u32, HNil>, HCons<Here, HNil>>::sculpt(three());
    assert_eq!(h_cons(shape.head, rest), three());
}

#[test]
fn length_is_known_from_the_type() {
    assert_eq!(HNil.len(), 0);
    assert!(HNil.is_empty());
    assert_eq!(three().len(), 3);
    assert!(!three().is_empty());
    assert_eq!(<Three as HList>::LEN, 3);
    assert_eq!(<HNil as HList>::LEN, 0);
    assert_eq!(HList::len(&numbers()), 3);
    assert!(!HList::is_empty(&numbers()));
}

#[test]
fn prepend_and_pop_are_inverse() {
    let list = HNil.prepend('b').prepend(7_u8);
    assert_eq!(list, h_cons(7_u8, h_cons('b', HNil)));
    let (head, tail) = list.pop();
    assert_eq!(head, 7);
    assert_eq!(tail, h_cons('b', HNil));
    assert_eq!(tail.prepend(head), list);
    assert_eq!(HList::prepend(HNil, 1_u8), h_cons(1_u8, HNil));
}

#[test]
fn concatenation_adds_lengths() {
    let left = h_cons(1_u8, h_cons("x", HNil));
    let joined = left + three();
    assert_eq!(joined.len(), left.len() + three().len());
    assert_eq!(joined.len(), 5);
    assert_eq!(joined, h_cons(1_u8, h_cons("x", three())));
    assert_eq!((HNil + three()).len(), 3);
    assert_eq!((three() + HNil).len(), 3);
}

#[test]
fn concatenation_with_the_empty_list_changes_nothing() {
    assert_eq!(HNil + three(), three());
    assert_eq!(three() + HNil, three());
    assert_eq!(HNil + HNil, HNil);
    assert_eq!(HNil.extend(three()), three());
    assert_eq!(three().extend(h_cons(true, HNil)).tail.tail.tail.head, true);
}

#[test]
fn map_with_one_function() {
    let doubled = numbers().map(|x: i32| x * 2);
    assert_eq!(doubled, h_cons(2, h_cons(4, h_cons(6, HNil))));
    let shown = numbers().map(|x: i32| x.to_string());
    assert_eq!(shown.tail.head, "2");
    assert_eq!(HNil.map(|x: i32| x), HNil);
    let again: HCons<i32, HNil> = HMappable::map(h_cons(1, HNil), |x: i32| x + 1);
    assert_eq!(again.head, 2);
}

#[test]
fn map_with_a_function_for_each_element() {
    let mapper = h_cons(
        |n: u32| n + 1,
        h_cons(|s: &str| s.len(), h_cons(|f: f64| f < 4.0, HNil)),
    );
    let mapped = three().map(mapper);
    assert_eq!(mapped, h_cons(2_u32, h_cons(1_usize, h_cons(true, HNil))));
}

#[test]
fn map_with_functions_that_are_used_up() {
    let owned = String::from("moved");
    let mapper = h_cons(move |n: u8| format!("{owned}{n}"), HNil);
    let mapped = h_cons(7_u8, HNil).map(mapper);
    assert_eq!(mapped.head, "moved7");
}

#[test]
fn zip_pairs_position_by_position() {
    let zipped = three().zip(h_cons('x', h_cons('y', h_cons('z', HNil))));
    assert_eq!(
        zipped,
        h_cons((1_u32, 'x'), h_cons(("a", 'y'), h_cons((3.5_f64, 'z'), HNil)))
    );
    assert_eq!(zipped.len(), 3);
    assert_eq!(HNil.zip(HNil), HNil);
    assert_eq!(HZippable::zip(h_cons(1, HNil), h_cons(2, HNil)).head, (1, 2));
}

#[test]
fn zip_can_be_undone() {
    let other = h_cons('x', h_cons('y', h_cons('z', HNil)));
    let zipped = three().zip(other);
    let firsts = zipped.map(h_cons(
        |p: (u32, char)| p.0,
        h_cons(|p: (&'static str, char)| p.0, h_cons(|p: (f64, char)| p.0, HNil)),
    ));
    let seconds = zipped.map(h_cons(
        |p: (u32, char)| p.1,
        h_cons(|p: (&'static str, char)| p.1, h_cons(|p: (f64, char)| p.1, HNil)),
    ));
    assert_eq!(firsts, three());
    assert_eq!(seconds, other);
}

#[test]
fn fold_left_goes_front_to_back() {
    let r: i32 = numbers().foldl(|acc: i32, x: i32| acc - x, 0);
    assert_eq!(r, -6);
    let digits: String = numbers().foldl(|acc: String, x: i32| format!("{acc}{x}"), String::new());
    assert_eq!(digits, "123");
    let same: u8 = HNil.foldl(|acc: u8, x: u8| acc + x, 9);
    assert_eq!(same, 9);
}

#[test]
fn fold_right_goes_back_to_front() {
    let r: i32 = numbers().foldr(|x: i32, acc: i32| x - acc, 0);
    assert_eq!(r, 2);
    let digits: String = numbers().foldr(|x: i32, acc: String| format!("{acc}{x}"), String::new());
    assert_eq!(digits, "321");
    let same: u8 = HNil.foldr(|x: u8, acc: u8| acc + x, 9);
    assert_eq!(same, 9);
}

#[test]
fn fold_right_hands_the_element_first_and_the_accumulator_second() {
    let trace: Vec<(i32, i32)> = Vec::new();
    let seen = std::cell::RefCell::new(trace);
    let r: i32 = numbers().foldr(
        |x: i32, acc: i32| {
            seen.borrow_mut().push((x, acc));
            x - acc
        },
        0,
    );
    assert_eq!(r, 1 - (2 - (3 - 0)));
    assert_eq!(*seen.borrow(), vec![(3, 0), (2, 3), (1, -1)]);
    let changing: String = h_cons(7_u8, HNil).foldr(|x: u8, acc: bool| format!("{x}{acc}"), true);
    assert_eq!(changing, "7true");
}

#[test]
fn fold_left_with_a_function_for_each_element() {
    let folder = h_cons(
        |acc: u64, n: u32| acc + u64::from(n),
        h_cons(
            |acc: u64, s: &str| format!("{acc}{s}"),
            h_cons(|acc: String, f: f64| (acc, f), HNil),
        ),
    );
    let r: (String, f64) = three().foldl(folder, 10_u64);
    assert_eq!(r, (String::from("11a"), 3.5));
    let one: bool = HFoldLeftable::foldl(h_cons(3_u8, HNil), h_cons(|a: u8, x: u8| a < x, HNil), 1_u8);
    assert!(one);
}

#[test]
fn fold_right_with_a_function_for_each_element() {
    let folder = h_cons(
        |n: u32, acc: (String, usize)| format!("{}{}{}", acc.0, acc.1, n),
        h_cons(
            |s: &str, acc: String| (acc, s.len()),
            h_cons(|f: f64, acc: u8| format!("{acc}{f}"), HNil),
        ),
    );
    let r: String = three().foldr(folder, 0_u8);
    assert_eq!(r, "03.511");
    let one: bool = HFoldRightable::foldr(h_cons(3_u8, HNil), h_cons(|x: u8, a: u8| a < x, HNil), 1_u8);
    assert!(one);
}

#[test]
fn fold_right_gives_the_folder_back() {
    let calls = std::cell::Cell::new(0);
    let folder = |x: i32, acc: i32| {
        calls.set(calls.get() + 1);
        x - acc
    };
    let (r, folder) = HFoldRightableOwned::real_foldr(numbers(), folder, 0);
    assert_eq!(r, 2);
    assert_eq!(calls.get(), 3);
    assert_eq!(folder(5, 1), 4);
    let (unchanged, _) = HFoldRightableOwned::real_foldr(HNil, folder, 7);
    assert_eq!(unchanged, 7);
}

#[test]
fn into_nested_pairs() {
    assert_eq!(h_cons(1_u8, h_cons('b', HNil)).into_tuple2(), (1, 'b'));
    assert_eq!(three().into_tuple2(), (1, ("a", 3.5)));
    assert_eq!(IntoTuple2::into_tuple2(numbers()), (1, (2, 3)));
}

#[test]
fn into_a_vector() {
    let v: Vec<i32> = numbers().into();
    assert_eq!(v, vec![1, 2, 3]);
    let e: Vec<i32> = HNil.into();
    assert!(e.is_empty());
    assert_eq!(numbers().into_vec(), vec![1, 2, 3]);
    assert_eq!(HSeq::<u8>::into_vec(HNil), Vec::<u8>::new());
}

#[test]
fn default_fills_every_position() {
    let list: HCons<u8, HCons<bool, HCons<String, HNil>>> = Default::default();
    assert_eq!(list, h_cons(0_u8, h_cons(false, h_cons(String::new(), HNil))));
    assert_eq!(HNil::default(), HNil);
}

#[test]
fn lift_from_puts_the_part_in_place() {
    type Record = HCons<u8, HCons<bool, HCons<&'static str, HNil>>>;
    let a: Record = lift_from(7_u8);
    assert_eq!(a, h_cons(7_u8, h_cons(false, h_cons("", HNil))));
    let b: Record = lift_from(true);
    assert_eq!(b, h_cons(0_u8, h_cons(true, h_cons("", HNil))));
    let c: Record = lift_from("z");
    assert_eq!(c, h_cons(0_u8, h_cons(false, h_cons("z", HNil))));
    let d = <Record as LiftFrom<bool, There<Here>>>::lift_from(true);
    assert_eq!(d, b);
}

#[test]
fn lift_into_is_lift_from_seen_from_the_part() {
    type Record = HCons<u8, HCons<bool, HNil>>;
    let a: Record = true.lift_into();
    assert_eq!(a, h_cons(0_u8, h_cons(true, HNil)));
    let b: Record = LiftInto::<Record, Here>::lift_into(9_u8);
    assert_eq!(b, h_cons(9_u8, h_cons(false, HNil)));
}

#[test]
fn lift_from_a_prefix_fills_the_suffix() {
    type Record = HCons<u8, HCons<bool, HCons<i64, HNil>>>;
    let prefix = h_cons(5_u8, HNil);
    let r: Record = lift_from::<Suffixed<HCons<bool, HCons<i64, HNil>>>, _, _>(prefix);
    assert_eq!(r, h_cons(5_u8, h_cons(false, h_cons(0_i64, HNil))));
}

#[test]
fn lists_compare_element_by_element() {
    assert!(h_cons(1, h_cons(2, HNil)) < h_cons(1, h_cons(3, HNil)));
    assert_eq!(numbers().clone(), numbers());
}
