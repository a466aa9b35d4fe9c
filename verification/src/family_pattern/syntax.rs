//! The traits that give the typeclass operations as methods, in one place.

pub use crate::family_pattern::ty_constructor::ConstructableTySyntax1;
pub use crate::family_pattern::ty_constructor::ConstructableTySyntax2;
pub use crate::family_pattern::ty_constructor::ConstructableTySyntax3;
pub use crate::family_pattern::typeclasses::ap::ApMutSyntax;
pub use crate::family_pattern::typeclasses::ap::ApOnceSyntax;
pub use crate::family_pattern::typeclasses::ap::ApSyntax;
pub use crate::family_pattern::typeclasses::ap::Lift2AMutSyntax;
pub use crate::family_pattern::typeclasses::ap::Lift2AOnceSyntax;
pub use crate::family_pattern::typeclasses::ap::Lift2ASyntax;
pub use crate::family_pattern::typeclasses::bind::BindMutSyntax;
pub use crate::family_pattern::typeclasses::bind::BindOnceSyntax;
pub use crate::family_pattern::typeclasses::bind::BindSyntax;
pub use crate::family_pattern::typeclasses::foldable::FoldableMutSyntax;
pub use crate::family_pattern::typeclasses::foldable::FoldableOnceSyntax;
pub use crate::family_pattern::typeclasses::foldable::FoldableSyntax;
pub use crate::family_pattern::typeclasses::functor::FunctorMutSyntax;
pub use crate::family_pattern::typeclasses::functor::FunctorOnceSyntax;
pub use crate::family_pattern::typeclasses::functor::FunctorSyntax;
pub use crate::family_pattern::typeclasses::pure::PureSyntax;
pub use crate::family_pattern::typeclasses::traverse::TraverseMutSyntax;
pub use crate::family_pattern::typeclasses::traverse::TraverseOnceSyntax;
pub use crate::family_pattern::typeclasses::traverse::TraverseSyntax;
