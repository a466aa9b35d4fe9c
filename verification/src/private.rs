//! Support for traits that only this crate implements.

use vstd::prelude::*;

verus! {

/// A trait that every type has, and that no other crate can name: a trait
/// with `Sealed` above it cannot be implemented elsewhere.
pub trait Sealed {

}

impl<T: ?Sized> Sealed for T {
}

} // verus!
