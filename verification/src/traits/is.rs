//! Type equality as a bound: `T: Is<Ty = U>` stands for `T == U`.

use crate::private::Sealed;
use vstd::prelude::*;

verus! {

/// Every type is itself.
///
/// The conversions between `Self` and `Self::Ty` change nothing; they let
/// a value pass from a type to an equal type that the compiler does not
/// see to be equal, such as the projection of an associated type.
pub trait Is: Sealed + Sized {
    /// The type that `Self` is.
    type Ty;

    /// `self` at the type `Ty`.
    spec fn as_ty(self) -> Self::Ty;

    /// `this` at the type `Self`.
    spec fn from_ty(this: Self::Ty) -> Self;

    /// Going to `Ty` and back changes nothing, either way.
    proof fn lemma_round_trip(self, this: Self::Ty)
        ensures
            Self::from_ty(Self::as_ty(self)) == self,
            Self::as_ty(Self::from_ty(this)) == this,
    ;

    /// Passes a value to the type `Ty`.
    fn refl(self) -> (r: Self::Ty)
        ensures
            r == Self::as_ty(self),
    ;

    /// Passes a value of the type `Ty` to `Self`.
    fn inv_refl(this: Self::Ty) -> (r: Self)
        ensures
            r == Self::from_ty(this),
    ;

    /// Passes a shared borrow to the type `Ty`.
    fn refl_ref(&self) -> (r: &Self::Ty)
        ensures
            *r == Self::as_ty(*self),
    ;

    /// Passes a shared borrow of the type `Ty` to `Self`.
    fn inv_refl_ref(this: &Self::Ty) -> (r: &Self)
        ensures
            *r == Self::from_ty(*this),
    ;

    /// Passes a unique borrow to the type `Ty`: what is written through
    /// the result is written to `self`.
    fn refl_mut(&mut self) -> (r: &mut Self::Ty)
        ensures
            *r == Self::as_ty(*old(self)),
            *final(self) == Self::from_ty(*final(r)),
    ;

    /// Passes a unique borrow of the type `Ty` to `Self`: what is written
    /// through the result is written to `this`.
    fn inv_refl_mut(this: &mut Self::Ty) -> (r: &mut Self)
        ensures
            *r == Self::from_ty(*old(this)),
            *final(this) == Self::as_ty(*final(r)),
    ;
}

impl<T> Is for T {
    type Ty = T;

    open spec fn as_ty(self) -> T {
        self
    }

    open spec fn from_ty(this: T) -> T {
        this
    }

    proof fn lemma_round_trip(self, this: T) {
    }

    fn refl(self) -> (r: T) {
        self
    }

    fn inv_refl(this: T) -> (r: T) {
        this
    }

    fn refl_ref(&self) -> (r: &T) {
        self
    }

    fn inv_refl_ref(this: &T) -> (r: &T) {
        this
    }

    fn refl_mut(&mut self) -> (r: &mut T) {
        self
    }

    fn inv_refl_mut(this: &mut T) -> (r: &mut T) {
        this
    }
}

} // verus!
