//! Types used for indexing into heterogeneous data structures.

use std::marker::PhantomData;
use vstd::prelude::*;

verus! {

/// Index of the head of a heterogeneous list: position zero.
///
/// Users normally let type inference create this type.
pub struct Here {
    _priv: (),
}

/// Index of a position in the tail of a heterogeneous list: `There<T>` is
/// one more than `T`.
///
/// Users normally let type inference create this type.
pub struct There<T> {
    _marker: PhantomData<T>,
}

/// Index which says that `Suffix` is what follows a given prefix.
pub struct Suffixed<Suffix> {
    _marker: PhantomData<Suffix>,
}

} // verus!
