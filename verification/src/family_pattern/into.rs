//! Constructors reached through a conversion.

use crate::family_pattern::ty_constructor::TyConstructor1;
use std::marker::PhantomData;
use vstd::prelude::*;

verus! {

/// The marker of the types that convert into a type constructed by `T`.
#[derive(Copy, PartialEq, Eq, Hash, Debug, PartialOrd, Ord)]
pub struct Into1<T: TyConstructor1>(PhantomData<T>);

impl<T: TyConstructor1> Clone for Into1<T> {
    /// A marker has one value, so the clone is the marker itself.
    fn clone(&self) -> (r: Self)
        ensures
            r == *self,
    {
        Into1(PhantomData)
    }
}

} // verus!
