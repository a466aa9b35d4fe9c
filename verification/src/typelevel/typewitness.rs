//! Type witnesses: values without data that stand for a fact about a type,
//! and values that carry one.

use vstd::prelude::*;

verus! {

/// Types whose values witness a fact about a type.
pub trait TypeWitness: Copy {

}

/// A value with a witness of a fact about its type, so that code that
/// gets the value can use the fact without a bound of its own.
pub struct With<T, W: TypeWitness> {
    pub value: T,
    pub witness: W,
}

impl<T, W: TypeWitness> With<T, W> {
    /// Binds a value to a witness.
    pub fn new(value: T, witness: W) -> (r: Self)
        ensures
            r.value == value,
            r.witness == witness,
    {
        With { value, witness }
    }

    /// Borrows the value, and returns the witness with it.
    pub fn tuple(&self) -> (r: (&T, W))
        ensures
            *r.0 == self.value,
            r.1 == self.witness,
    {
        (&self.value, self.witness)
    }
}

} // verus!
