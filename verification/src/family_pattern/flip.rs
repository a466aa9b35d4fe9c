//! Swapping the arguments of a type constructor with two arguments.

use crate::family_pattern::ty_constructor::ConstructableTy2;
use crate::family_pattern::ty_constructor::TC2;
use crate::family_pattern::ty_constructor::TyConstructor2;
use std::marker::PhantomData;
use vstd::prelude::*;

verus! {

/// The marker of the constructor `T` with its two arguments swapped.
#[derive(Copy, PartialEq, Eq, Hash, Debug, PartialOrd, Ord)]
pub struct Flip<T: TyConstructor2>(PhantomData<T>);

/// A value of the constructed type `T`, held to be read with its two
/// arguments swapped.
pub struct Flipped<T: ConstructableTy2>(
    pub TC2<T::Constructor, T::GenericParameter1, T::GenericParameter2>,
);

impl<T: TyConstructor2> Clone for Flip<T> {
    /// A marker has one value, so the clone is the marker itself.
    fn clone(&self) -> (r: Self)
        ensures
            r == *self,
    {
        Flip(PhantomData)
    }
}

} // verus!
