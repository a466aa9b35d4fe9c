//! The witness that says nothing: every type has it.

use crate::typelevel::typewitness::TypeWitness;
use crate::typelevel::typewitness::With;
use std::cmp::Ordering;
use std::hash::Hash;
use std::hash::Hasher;
use std::marker::PhantomData;
use vstd::prelude::*;
use vstd::std_specs::cmp::PartialEqSpecImpl;
use vstd::std_specs::cmp::PartialOrdSpecImpl;

verus! {

/// The trait that every type implements: no bound at all, for the places
/// where some bound has to be named.
pub trait Unit {

}

impl<T: ?Sized> Unit for T {
}

/// A value of `T` with the witness that `T` implements [`Unit`].
pub type WithUnit<T> = With<T, UnitWit<T>>;

/// The witness that `T` implements [`Unit`], which can be made for every
/// type. It holds no data, so it has exactly one value.
#[derive(Ord)]
pub struct UnitWit<T: ?Sized>(PhantomData<T>);

/// Returns the witness that `T` implements [`Unit`].
#[must_use]
pub fn is_unit<T: ?Sized>() -> (w: UnitWit<T>)
    ensures
        w == UnitWit::<T>::witness(),
{
    UnitWit::new()
}

impl<T: ?Sized> UnitWit<T> {
    /// The one value of the type.
    pub closed spec fn witness() -> Self {
        UnitWit(PhantomData)
    }

    /// Two witnesses of one fact are equal.
    pub proof fn lemma_unique(a: Self, b: Self)
        ensures
            a == b,
    {
    }

    /// Returns the witness.
    #[must_use]
    pub fn new() -> (w: Self)
        ensures
            w == Self::witness(),
    {
        Self(PhantomData)
    }
}

impl<T: ?Sized> PartialEq for UnitWit<T> {
    /// All witnesses are equal.
    fn eq(&self, other: &Self) -> (b: bool) {
        true
    }
}

impl<T: ?Sized> PartialEqSpecImpl for UnitWit<T> {
    open spec fn obeys_eq_spec() -> bool {
        true
    }

    open spec fn eq_spec(&self, other: &Self) -> bool {
        true
    }
}

impl<T: ?Sized> Hash for UnitWit<T> {
    /// A witness holds nothing, so nothing is fed to the hasher: all
    /// witnesses hash alike.
    fn hash<H: Hasher>(&self, state: &mut H)
        ensures
            *final(state) == *old(state),
    {
    }
}

impl<T: ?Sized> Eq for UnitWit<T> {

}

impl<T: ?Sized> PartialOrd for UnitWit<T> {
    /// All witnesses are equal in the order too.
    fn partial_cmp(&self, other: &Self) -> (o: Option<Ordering>) {
        Some(Ordering::Equal)
    }
}

impl<T: ?Sized> PartialOrdSpecImpl for UnitWit<T> {
    open spec fn obeys_partial_cmp_spec() -> bool {
        true
    }

    open spec fn partial_cmp_spec(&self, other: &Self) -> Option<Ordering> {
        Some(Ordering::Equal)
    }
}

impl<T: ?Sized> Copy for UnitWit<T> {

}

impl<T: ?Sized> Clone for UnitWit<T> {
    /// The clone of a witness is the witness.
    fn clone(&self) -> (w: Self)
        ensures
            w == *self,
    {
        *self
    }
}

impl<T: ?Sized> Default for UnitWit<T> {
    /// The default witness is the witness.
    fn default() -> (w: Self)
        ensures
            w == Self::witness(),
    {
        Self::new()
    }
}

impl<T: ?Sized> TypeWitness for UnitWit<T> {

}

} // verus!
