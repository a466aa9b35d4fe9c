//! Type constructors of the standard library, with their typeclass
//! instances.

pub mod option;
pub mod result;
