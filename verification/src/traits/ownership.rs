//! Conversions to references that need not be references themselves.

use vstd::prelude::*;

verus! {

/// An alternative to `AsRef` whose result is not forced to be a reference:
/// a structure of references does as well. See also [`ToMut`].
pub trait ToRef<'a> {
    /// The type of the borrowed form.
    type Output;

    /// Borrows `self`.
    fn to_ref(&'a self) -> Self::Output;
}

/// An alternative to `AsMut` whose result is not forced to be a reference:
/// a structure of references does as well. See also [`ToRef`].
pub trait ToMut<'a> {
    /// The type of the mutably borrowed form.
    type Output;

    /// Mutably borrows `self`.
    fn to_mut(&'a mut self) -> Self::Output;
}

} // verus!
