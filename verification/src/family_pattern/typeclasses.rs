//! The typeclasses: families of operations over type constructors.
//!
//! Each operation that takes a function exists in three tiers, named after
//! the way the function may be used: once (`FnOnce`), repeatedly through a
//! unique borrow (`FnMut`), or repeatedly through a shared borrow (`Fn`).
//! An instance of the once tier is an instance of the other two, and an
//! instance of the `FnMut` tier is an instance of the `Fn` tier.
//!
//! Every typeclass is a trait with type parameters for the types of the
//! values that the operation relates, and states what its operations
//! return over the [`elements`] of the values involved.
//!
//! [`elements`]: crate::family_pattern::ty_constructor::ForAllConstructedTy1::elements

pub mod ap;
pub mod applicative;
pub mod bind;
pub mod foldable;
pub mod functor;
pub mod monad;
pub mod monoid;
pub mod outcomes;
pub mod pure;
pub mod semigroup;
pub mod traversable;
pub mod traverse;
