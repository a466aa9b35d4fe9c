//! Traits that state relations between types.

pub mod func;
pub mod imply;
pub mod is;
pub mod ownership;

pub use crate::traits::func::Func;
pub use crate::traits::imply::Imply;
pub use crate::traits::is::Is;
pub use crate::traits::ownership::ToMut;
pub use crate::traits::ownership::ToRef;
