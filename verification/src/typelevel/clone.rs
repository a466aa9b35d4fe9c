//! The witness that a type can be cloned.

use crate::typelevel::typewitness::TypeWitness;
use crate::typelevel::typewitness::With;
use std::cmp::Ordering;
use std::hash::Hash;
use std::hash::Hasher;
use std::marker::PhantomData;
use vstd::prelude::*;
use vstd::std_specs::cmp::PartialEqSpecImpl;
use vstd::std_specs::cmp::PartialOrdSpecImpl;

verus! {

/// A value of `T` with the witness that `T` can be cloned.
pub type WithClone<T> = With<T, CloneWit<T>>;

/// The witness that `T` can be cloned. It can be made only where
/// `T: Clone` holds; it holds no data, so it has exactly one value.
#[derive(Ord)]
pub struct CloneWit<T: ?Sized>(PhantomData<T>);

/// Returns the witness that `T` can be cloned.
#[must_use]
pub fn is_clone<T: Clone>() -> (w: CloneWit<T>)
    ensures
        w == CloneWit::<T>::witness(),
{
    CloneWit::new()
}

impl<T: ?Sized> CloneWit<T> {
    /// The one value of the type.
    pub closed spec fn witness() -> Self {
        CloneWit(PhantomData)
    }

    /// Two witnesses of one fact are equal.
    pub proof fn lemma_unique(a: Self, b: Self)
        ensures
            a == b,
    {
    }

    /// Returns the witness.
    #[must_use]
    pub fn new() -> (w: Self) where T: Clone
        ensures
            w == Self::witness(),
    {
        Self(PhantomData)
    }
}

impl<T: ?Sized> PartialEq for CloneWit<T> {
    /// All witnesses are equal.
    fn eq(&self, other: &Self) -> (b: bool) {
        true
    }
}

impl<T: ?Sized> PartialEqSpecImpl for CloneWit<T> {
    open spec fn obeys_eq_spec() -> bool {
        true
    }

    open spec fn eq_spec(&self, other: &Self) -> bool {
        true
    }
}

impl<T: ?Sized> Hash for CloneWit<T> {
    /// A witness holds nothing, so nothing is fed to the hasher: all
    /// witnesses hash alike.
    fn hash<H: Hasher>(&self, state: &mut H)
        ensures
            *final(state) == *old(state),
    {
    }
}

impl<T: ?Sized> Eq for CloneWit<T> {

}

impl<T: ?Sized> PartialOrd for CloneWit<T> {
    /// All witnesses are equal in the order too.
    fn partial_cmp(&self, other: &Self) -> (o: Option<Ordering>) {
        Some(Ordering::Equal)
    }
}

impl<T: ?Sized> PartialOrdSpecImpl for CloneWit<T> {
    open spec fn obeys_partial_cmp_spec() -> bool {
        true
    }

    open spec fn partial_cmp_spec(&self, other: &Self) -> Option<Ordering> {
        Some(Ordering::Equal)
    }
}

impl<T: ?Sized> Copy for CloneWit<T> {

}

impl<T: ?Sized> Clone for CloneWit<T> {
    /// The clone of a witness is the witness.
    fn clone(&self) -> (w: Self)
        ensures
            w == *self,
    {
        *self
    }
}

impl<T: Clone> Default for CloneWit<T> {
    /// The default witness is the witness.
    fn default() -> (w: Self)
        ensures
            w == Self::witness(),
    {
        Self::new()
    }
}

impl<T: ?Sized> TypeWitness for CloneWit<T> {

}

/// Cloning on the strength of a witness: the instance of `Clone` is given
/// by a [`CloneWit`] rather than found by the caller.
pub trait CloneInstance: Clone {
    /// Clones `self` by the instance that the witness stands for.
    #[must_use]
    fn clone_with(&self, wit: &CloneWit<Self>) -> (r: Self)
        ensures
            cloned(*self, r),
    ;
}

impl<T: Clone> CloneInstance for T {
    fn clone_with(&self, _wit: &CloneWit<Self>) -> (r: Self) {
        self.clone()
    }
}

/// A value with the witness that it can be cloned is cloned by what the
/// witness stands for; the witness goes along.
impl<T: Clone> Clone for With<T, CloneWit<T>> {
    fn clone(&self) -> (r: Self)
        ensures
            cloned(self.value, r.value),
            r.witness == self.witness,
    {
        let (value, witness) = self.tuple();
        With::new(value.clone_with(&witness), witness)
    }
}

} // verus!
