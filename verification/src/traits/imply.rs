//! A way to make a bound on another type follow from a bound on `Self`.

use vstd::prelude::*;

verus! {

/// Every type implements `ImplyInner<T>`, with `T` for `Is`.
pub trait ImplyInner<T> {
    /// The type `T` itself.
    type Is;
}

impl<T, U> ImplyInner<T> for U {
    type Is = T;
}

/// Names the type `T` through a bound on `Self`, so that a bound on `T`
/// can stand where only bounds on `Self` are implied: a trait with
/// `Imply<T, Is: Bound>` above it implies `T: Bound`.
pub trait Imply<T>: ImplyInner<T, Is = T> {

}

impl<T, U> Imply<T> for U {
}

} // verus!
