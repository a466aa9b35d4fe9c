//! Family-pattern encoding of higher-kinded types: a marker type stands for
//! a type constructor, and traits over such markers play the part of
//! typeclasses.

pub mod data;
pub mod flip;
pub mod into;
pub mod syntax;
pub mod ty_constructor;
pub mod typeclasses;

pub use crate::family_pattern::ty_constructor::ConstructableTy1;
pub use crate::family_pattern::ty_constructor::ConstructableTy2;
pub use crate::family_pattern::ty_constructor::ConstructableTy3;
pub use crate::family_pattern::ty_constructor::ConstructableTyExt1;
pub use crate::family_pattern::ty_constructor::ConstructableTyExt2;
pub use crate::family_pattern::ty_constructor::ConstructableTyExt3;
pub use crate::family_pattern::ty_constructor::ConstructableTySyntax1;
pub use crate::family_pattern::ty_constructor::ConstructableTySyntax2;
pub use crate::family_pattern::ty_constructor::ConstructableTySyntax3;
pub use crate::family_pattern::ty_constructor::ForAllConstructedTy1;
pub use crate::family_pattern::ty_constructor::ForAllConstructedTy2;
pub use crate::family_pattern::ty_constructor::ForAllConstructedTy3;
pub use crate::family_pattern::ty_constructor::TyConstructor1;
pub use crate::family_pattern::ty_constructor::TyConstructor2;
pub use crate::family_pattern::ty_constructor::TyConstructor3;
pub use crate::family_pattern::ty_constructor::CT1;
pub use crate::family_pattern::ty_constructor::CT2;
pub use crate::family_pattern::ty_constructor::CT3;
pub use crate::family_pattern::ty_constructor::TC1;
pub use crate::family_pattern::ty_constructor::TC2;
pub use crate::family_pattern::ty_constructor::TC3;
