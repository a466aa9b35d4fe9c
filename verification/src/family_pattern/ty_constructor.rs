//! Type constructors and the types they construct.
//!
//! A marker type that implements [`TyConstructor1`] stands for a type
//! constructor with one argument, such as `Option<_>`. What the constructor
//! yields for an argument `A` is given by [`ForAllConstructedTy1<A>`], and a
//! constructed type names its constructor and its argument through
//! [`ConstructableTy1`]. The bound in `ConstructableTy1` ties the two
//! together: applying the constructor of a type to the argument of that
//! type gives the type back.
//!
//! A value of a constructed type is described by its shape, which does not
//! depend on the argument, and by the sequence of its elements, which are
//! values of the argument. The two determine the value.

use vstd::prelude::*;

verus! {

/// The type that the constructor `T` yields for the argument `A`.
pub type TC1<T, A> = <T as ForAllConstructedTy1<A>>::ConstructedType;

/// The type that the constructor `T` yields for the arguments `A` and `B`.
pub type TC2<T, A, B> = <T as ForAllConstructedTy2<A, B>>::ConstructedType;

/// The type that the constructor `T` yields for the arguments `A`, `B` and
/// `C`.
pub type TC3<T, A, B, C> = <T as ForAllConstructedTy3<A, B, C>>::ConstructedType;

/// The constructor of the type `T`, taken as a type with one argument.
pub type CT1<T> = <T as ConstructableTy1>::Constructor;

/// The constructor of the type `T`, taken as a type with two arguments.
pub type CT2<T> = <T as ConstructableTy2>::Constructor;

/// The constructor of the type `T`, taken as a type with three arguments.
pub type CT3<T> = <T as ConstructableTy3>::Constructor;

// Constructors with one argument ------------------------------------------------------------------
/// Marker types that stand for a type constructor with one argument.
///
/// For a generic type `Foo<T>`, a marker type `FooConstructor` implements
/// this trait, and `ForAllConstructedTy1<A>` for every `A`.
pub trait TyConstructor1 {
    /// What is left of a constructed value when its elements are taken
    /// out: the same type for every argument.
    type Shape;

    /// The number of elements that a value of the given shape holds.
    spec fn arity(shape: Self::Shape) -> nat;
}

/// The application of a constructor to the argument `A`.
///
/// A constructor implements this trait once, for all `A`, so a bound
/// `T: ForAllConstructedTy1<A>` speaks of the constructed type for a given
/// `A` wherever it is needed.
pub trait ForAllConstructedTy1<A>: TyConstructor1 {
    /// The type that the constructor yields for `A`.
    type ConstructedType;

    /// The shape of a constructed value.
    spec fn shape(ta: Self::ConstructedType) -> Self::Shape;

    /// The values of type `A` that a constructed value holds, in the order
    /// in which every operation visits them.
    spec fn elements(ta: Self::ConstructedType) -> Seq<A>;

    /// The constructed value of the given shape that holds the given
    /// elements.
    spec fn assembled(shape: Self::Shape, elements: Seq<A>) -> Self::ConstructedType;

    /// A value holds as many elements as its shape says, and it is the
    /// value assembled from its shape and its elements.
    proof fn lemma_assembled(ta: Self::ConstructedType)
        ensures
            Self::elements(ta).len() == Self::arity(Self::shape(ta)),
            Self::assembled(Self::shape(ta), Self::elements(ta)) == ta,
    ;

    /// A value assembled from a shape and as many elements as the shape
    /// says has that shape and those elements.
    proof fn lemma_taken_apart(shape: Self::Shape, elements: Seq<A>)
        requires
            elements.len() == Self::arity(shape),
        ensures
            Self::shape(Self::assembled(shape, elements)) == shape,
            Self::elements(Self::assembled(shape, elements)) == elements,
    ;
}

/// The elements of `ta`, a value constructed by `T` from `A`.
pub open spec fn elements_of<T: ForAllConstructedTy1<A> + ?Sized, A>(ta: TC1<T, A>) -> Seq<A> {
    T::elements(ta)
}

/// The shape of `ta`, a value constructed by `T` from `A`.
pub open spec fn shape_of<T: ForAllConstructedTy1<A> + ?Sized, A>(ta: TC1<T, A>) -> T::Shape {
    T::shape(ta)
}

/// Types that are constructed by a [`TyConstructor1`] from one argument.
///
/// A generic type `Foo<T>` implements this trait, and names its marker
/// type `FooConstructor` as its constructor.
pub trait ConstructableTy1 {
    /// The argument that this type was constructed from.
    type GenericParameter1;

    /// The constructor of this type: applied to the argument, it yields
    /// this type.
    type Constructor: ForAllConstructedTy1<Self::GenericParameter1, ConstructedType = Self>;
}

/// The types that the constructor `T` yields for the argument `A`.
pub trait ConstructableTySyntax1<T, A>: ConstructableTy1<
    Constructor = T,
    GenericParameter1 = A,
> where T: ForAllConstructedTy1<A, ConstructedType = Self> {

}

impl<T, A, TA> ConstructableTySyntax1<T, A> for TA where
    T: ForAllConstructedTy1<A, ConstructedType = TA>,
    TA: ConstructableTy1<Constructor = T, GenericParameter1 = A>,
 {
}

/// Reifying a constructed type into the application of its constructor.
///
/// The two are one type, but type inference does not always see it; this
/// conversion, which changes nothing, tells it so.
pub trait ConstructableTyExt1: ConstructableTy1 {
    /// Returns `self` at the type that its constructor yields for its
    /// argument.
    fn reify1(self) -> (r: TC1<Self::Constructor, Self::GenericParameter1>) where Self: Sized
        ensures
            r == self,
    ;
}

/// A value of the type constructed by `T` from `A` is a value of `TC1<T, A>`.
pub fn witness1<T: ForAllConstructedTy1<A>, A>(
    ta: <T as ForAllConstructedTy1<A>>::ConstructedType,
) -> (r: TC1<T, A>)
    ensures
        r == ta,
{
    ta
}

impl<T: ConstructableTy1> ConstructableTyExt1 for T {
    fn reify1(self) -> (r: TC1<Self::Constructor, Self::GenericParameter1>) {
        witness1::<Self::Constructor, Self::GenericParameter1>(self)
    }
}

// Constructors with two arguments -----------------------------------------------------------------
/// Marker types that stand for a type constructor with two arguments.
pub trait TyConstructor2 {

}

/// The application of a constructor to the arguments `A` and `B`.
pub trait ForAllConstructedTy2<A, B>: TyConstructor2 {
    /// The type that the constructor yields for `A` and `B`.
    type ConstructedType;
}

/// Types that are constructed by a [`TyConstructor2`] from two arguments.
pub trait ConstructableTy2 {
    /// The first argument that this type was constructed from.
    type GenericParameter1;

    /// The second argument that this type was constructed from.
    type GenericParameter2;

    /// The constructor of this type: applied to the arguments, it yields
    /// this type.
    type Constructor: ForAllConstructedTy2<
        Self::GenericParameter1,
        Self::GenericParameter2,
        ConstructedType = Self,
    >;
}

/// The types that the constructor `T` yields for the arguments `A` and `B`.
pub trait ConstructableTySyntax2<T, A, B>: ConstructableTy2<
    Constructor = T,
    GenericParameter1 = A,
    GenericParameter2 = B,
> where T: ForAllConstructedTy2<A, B, ConstructedType = Self> {

}

impl<T, A, B, TAB> ConstructableTySyntax2<T, A, B> for TAB where
    T: ForAllConstructedTy2<A, B, ConstructedType = TAB>,
    TAB: ConstructableTy2<Constructor = T, GenericParameter1 = A, GenericParameter2 = B>,
 {
}

/// Reifying a constructed type into the application of its constructor.
pub trait ConstructableTyExt2: ConstructableTy2 {
    /// Returns `self` at the type that its constructor yields for its
    /// arguments.
    fn reify2(self) -> (r: TC2<
        Self::Constructor,
        Self::GenericParameter1,
        Self::GenericParameter2,
    >) where Self: Sized
        ensures
            r == self,
    ;
}

/// A value of the type constructed by `T` from `A` and `B` is a value of
/// `TC2<T, A, B>`.
pub fn witness2<T: ForAllConstructedTy2<A, B>, A, B>(
    ta: <T as ForAllConstructedTy2<A, B>>::ConstructedType,
) -> (r: TC2<T, A, B>)
    ensures
        r == ta,
{
    ta
}

impl<T: ConstructableTy2> ConstructableTyExt2 for T {
    fn reify2(self) -> (r: TC2<
        Self::Constructor,
        Self::GenericParameter1,
        Self::GenericParameter2,
    >) {
        witness2::<Self::Constructor, Self::GenericParameter1, Self::GenericParameter2>(self)
    }
}

// Constructors with three arguments ---------------------------------------------------------------
/// Marker types that stand for a type constructor with three arguments.
pub trait TyConstructor3 {

}

/// The application of a constructor to the arguments `A`, `B` and `C`.
pub trait ForAllConstructedTy3<A, B, C>: TyConstructor3 {
    /// The type that the constructor yields for `A`, `B` and `C`.
    type ConstructedType;
}

/// Types that are constructed by a [`TyConstructor3`] from three arguments.
pub trait ConstructableTy3 {
    /// The first argument that this type was constructed from.
    type GenericParameter1;

    /// The second argument that this type was constructed from.
    type GenericParameter2;

    /// The third argument that this type was constructed from.
    type GenericParameter3;

    /// The constructor of this type: applied to the arguments, it yields
    /// this type.
    type Constructor: ForAllConstructedTy3<
        Self::GenericParameter1,
        Self::GenericParameter2,
        Self::GenericParameter3,
        ConstructedType = Self,
    >;
}

/// The types that the constructor `T` yields for the arguments `A`, `B` and
/// `C`.
pub trait ConstructableTySyntax3<T, A, B, C>: ConstructableTy3<
    Constructor = T,
    GenericParameter1 = A,
    GenericParameter2 = B,
    GenericParameter3 = C,
> where T: ForAllConstructedTy3<A, B, C, ConstructedType = Self> {

}

impl<T, A, B, C, TABC> ConstructableTySyntax3<T, A, B, C> for TABC where
    T: ForAllConstructedTy3<A, B, C, ConstructedType = TABC>,
    TABC: ConstructableTy3<
        Constructor = T,
        GenericParameter1 = A,
        GenericParameter2 = B,
        GenericParameter3 = C,
    >,
 {
}

/// Reifying a constructed type into the application of its constructor.
pub trait ConstructableTyExt3: ConstructableTy3 {
    /// Returns `self` at the type that its constructor yields for its
    /// arguments.
    fn reify3(self) -> (r: TC3<
        Self::Constructor,
        Self::GenericParameter1,
        Self::GenericParameter2,
        Self::GenericParameter3,
    >) where Self: Sized
        ensures
            r == self,
    ;
}

/// A value of the type constructed by `T` from `A`, `B` and `C` is a value
/// of `TC3<T, A, B, C>`.
pub fn witness3<T: ForAllConstructedTy3<A, B, C>, A, B, C>(
    ta: <T as ForAllConstructedTy3<A, B, C>>::ConstructedType,
) -> (r: TC3<T, A, B, C>)
    ensures
        r == ta,
{
    ta
}

impl<T: ConstructableTy3> ConstructableTyExt3 for T {
    fn reify3(self) -> (r: TC3<
        Self::Constructor,
        Self::GenericParameter1,
        Self::GenericParameter2,
        Self::GenericParameter3,
    >) {
        witness3::<
            Self::Constructor,
            Self::GenericParameter1,
            Self::GenericParameter2,
            Self::GenericParameter3,
        >(self)
    }
}

} // verus!
