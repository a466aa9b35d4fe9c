//! Type-level programming tools: heterogeneous lists with type-indexed
//! access, a family-pattern encoding of higher-kinded types with its
//! typeclass hierarchy, and zero-size type witnesses.

pub mod data;
pub mod ext;
pub mod family_pattern;
pub mod func;
pub(crate) mod private;
pub mod traits;
pub mod typelevel;
