//! Methods added to types of the standard library.

use crate::family_pattern::typeclasses::outcomes::accepts_all;
use crate::family_pattern::typeclasses::outcomes::results_of;
use vstd::prelude::*;

verus! {

/// Mapping over a vector by value.
pub trait VecExt<T>: Sized {
    /// The elements, in order.
    spec fn items(self) -> Seq<T>;

    /// Applies `f` to each element, in order, and collects the results.
    fn map<B, F>(self, f: F) -> (r: Vec<B>) where F: FnMut(T) -> B
        requires
            accepts_all(f, self.items()),
        ensures
            results_of(f, self.items(), r@),
    ;
}

impl<T> VecExt<T> for Vec<T> {
    open spec fn items(self) -> Seq<T> {
        self@
    }

    fn map<B, F>(self, f: F) -> (r: Vec<B>) where F: FnMut(T) -> B {
        let ghost src = self@;
        let ghost given = f;
        let mut f = f;
        let mut rest = self;
        let mut reversed: Vec<T> = Vec::new();
        while rest.len() > 0
            invariant
                rest@.len() + reversed@.len() == src.len(),
                forall|i: int| 0 <= i < rest@.len() ==> rest@[i] == src[i],
                forall|i: int|
                    0 <= i < reversed@.len() ==> reversed@[i] == src[src.len() - 1 - i],
            decreases rest@.len(),
        {
            let x = rest.pop().unwrap();
            reversed.push(x);
        }
        let mut out: Vec<B> = Vec::new();
        while reversed.len() > 0
            invariant
                f == given,
                accepts_all(f, src),
                out@.len() + reversed@.len() == src.len(),
                forall|i: int|
                    0 <= i < reversed@.len() ==> reversed@[i] == src[src.len() - 1 - i],
                forall|i: int| 0 <= i < out@.len() ==> f.ensures((src[i], ), #[trigger] out@[i]),
            decreases reversed@.len(),
        {
            let x = reversed.pop().unwrap();
            assert(x == src[out@.len() as int]);
            let y = f(x);
            out.push(y);
        }
        out
    }
}

/// Mapping over a boxed slice by value.
pub trait BoxedSliceExt<T>: Sized {
    /// The elements, in order.
    spec fn items(self) -> Seq<T>;

    /// Applies `f` to each element, in order, and collects the results.
    fn map<B, F>(self, f: F) -> (r: Box<[B]>) where F: FnMut(T) -> B
        requires
            accepts_all(f, self.items()),
        ensures
            results_of(f, self.items(), r@),
    ;
}

/// Turns a vector into a boxed slice by `Vec::into_boxed_slice`, which
/// keeps the elements and their order.
#[verifier::external_body]
fn vec_into_boxed_slice<T>(v: Vec<T>) -> (b: Box<[T]>)
    ensures
        b@ == v@,
{
    v.into_boxed_slice()
}

impl<T> BoxedSliceExt<T> for Box<[T]> {
    open spec fn items(self) -> Seq<T> {
        self@
    }

    fn map<B, F>(self, f: F) -> (r: Box<[B]>) where F: FnMut(T) -> B {
        vec_into_boxed_slice(VecExt::map(self.into_vec(), f))
    }
}

} // verus!
