//! The type constructors of `Result<_, _>`.

use crate::family_pattern::ty_constructor::ConstructableTy1;
use crate::family_pattern::ty_constructor::ConstructableTy2;
use crate::family_pattern::ty_constructor::ForAllConstructedTy1;
use crate::family_pattern::ty_constructor::ForAllConstructedTy2;
use crate::family_pattern::ty_constructor::TyConstructor1;
use crate::family_pattern::ty_constructor::TyConstructor2;
use std::marker::PhantomData;
use vstd::prelude::*;

verus! {

/// The type constructor of the `Result<_, _>` data type, with both
/// arguments open.
#[derive(Copy, Clone, PartialEq, Eq, Hash, Debug, PartialOrd, Ord)]
pub struct ResultConstructor;

/// The type constructor of the `Result<T, _>` data type: the success type
/// is fixed, the error type is the argument.
#[derive(Copy, PartialEq, Eq, Hash, Debug, PartialOrd, Ord)]
pub struct ResultTConstructor<T>(PhantomData<T>);

impl<T, E> ConstructableTy2 for Result<T, E> {
    type GenericParameter1 = T;

    type GenericParameter2 = E;

    type Constructor = ResultConstructor;
}

impl TyConstructor2 for ResultConstructor {

}

impl<T, E> ForAllConstructedTy2<T, E> for ResultConstructor {
    type ConstructedType = Result<T, E>;
}

impl<T, E> ConstructableTy1 for Result<T, E> {
    type GenericParameter1 = E;

    type Constructor = ResultTConstructor<T>;
}

/// The shape of a result, seen from its error slot, is its success value,
/// if it has one.
impl<T> TyConstructor1 for ResultTConstructor<T> {
    type Shape = Option<T>;

    open spec fn arity(shape: Option<T>) -> nat {
        match shape {
            None => 1,
            Some(_) => 0,
        }
    }
}

/// A result holds, in its error slot, its error, if it is one.
impl<T, E> ForAllConstructedTy1<E> for ResultTConstructor<T> {
    type ConstructedType = Result<T, E>;

    open spec fn shape(ta: Result<T, E>) -> Option<T> {
        match ta {
            Err(_) => None,
            Ok(t) => Some(t),
        }
    }

    open spec fn elements(ta: Result<T, E>) -> Seq<E> {
        match ta {
            Err(e) => seq![e],
            Ok(_) => Seq::empty(),
        }
    }

    open spec fn assembled(shape: Option<T>, elements: Seq<E>) -> Result<T, E> {
        match shape {
            None => Err(elements[0]),
            Some(t) => Ok(t),
        }
    }

    proof fn lemma_assembled(ta: Result<T, E>) {
    }

    proof fn lemma_taken_apart(shape: Option<T>, elements: Seq<E>) {
        assert(Self::elements(Self::assembled(shape, elements)) =~= elements);
    }
}

impl<T> Clone for ResultTConstructor<T> {
    /// A marker has one value, so the clone is the marker itself.
    fn clone(&self) -> (r: Self)
        ensures
            r == *self,
    {
        ResultTConstructor(PhantomData)
    }
}

} // verus!
