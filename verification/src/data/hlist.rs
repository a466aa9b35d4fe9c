//! Heterogeneous lists: lists whose length and element types are part of
//! their type.
//!
//! A list is either [`HNil`] or an [`HCons`] of a head value and a tail list.
//! Every operation is resolved through traits that are implemented by
//! induction on that structure; each trait states, next to the executable
//! method, the mathematical function the method computes.

use crate::data::indices::Here;
use crate::data::indices::Suffixed;
use crate::data::indices::There;
use std::ops::Add;
use vstd::prelude::*;
use vstd::std_specs::ops::AddSpec;
use vstd::std_specs::ops::AddSpecImpl;

verus! {

/// Behaviour common to all heterogeneous lists.
pub trait HList: Sized {
    /// The number of elements, known from the type alone.
    const LEN: usize;

    /// The number of elements as a mathematical number.
    spec fn spec_len() -> nat;

    /// `LEN` is the number of elements whenever that number fits in `usize`.
    proof fn lemma_len()
        requires
            Self::spec_len() <= usize::MAX,
        ensures
            Self::LEN == Self::spec_len(),
    ;

    /// Returns the length of the list.
    fn len(&self) -> (n: usize)
        ensures
            n == Self::LEN,
            Self::spec_len() <= usize::MAX ==> n == Self::spec_len(),
    {
        proof {
            if Self::spec_len() <= usize::MAX {
                Self::lemma_len();
            }
        }
        Self::LEN
    }

    /// Returns whether the list is empty.
    fn is_empty(&self) -> (b: bool)
        ensures
            b == (Self::LEN == 0),
            Self::spec_len() <= usize::MAX ==> b == (Self::spec_len() == 0),
    {
        proof {
            if Self::spec_len() <= usize::MAX {
                Self::lemma_len();
            }
        }
        Self::LEN == 0
    }

    /// Prepends an item to the list.
    fn prepend<H>(self, h: H) -> (list: HCons<H, Self>)
        ensures
            list.head == h,
            list.tail == self,
    {
        HCons { head: h, tail: self }
    }
}

/// The right-most end of a heterogeneous list.
#[derive(PartialEq, Debug, Eq, Clone, Copy, PartialOrd, Ord, Hash)]
pub struct HNil;

impl HList for HNil {
    const LEN: usize = 0;

    open spec fn spec_len() -> nat {
        0
    }

    proof fn lemma_len() {
    }
}

/// A non-empty heterogeneous list: a value in `head`, another list in `tail`.
#[derive(PartialEq, Debug, Eq, Copy, PartialOrd, Ord, Hash)]
pub struct HCons<H, T> {
    pub head: H,
    pub tail: T,
}

/// A list is cloned element by element.
impl<H: Clone, T: Clone> Clone for HCons<H, T> {
    fn clone(&self) -> (list: Self)
        ensures
            cloned(self.head, list.head),
            cloned(self.tail, list.tail),
    {
        HCons { head: self.head.clone(), tail: self.tail.clone() }
    }
}

impl<H, T: HList> HList for HCons<H, T> {
    const LEN: usize = 1 + <T as HList>::LEN;

    open spec fn spec_len() -> nat {
        1 + T::spec_len()
    }

    proof fn lemma_len() {
        T::lemma_len();
    }
}

impl<H, T> HCons<H, T> {
    /// Returns the head and the tail of the list as a pair.
    pub fn pop(self) -> (parts: (H, T))
        ensures
            parts.0 == self.head,
            parts.1 == self.tail,
    {
        (self.head, self.tail)
    }
}

/// Prepends the element `h` to the list `tail`.
pub fn h_cons<H, T: HList>(h: H, tail: T) -> (list: HCons<H, T>)
    ensures
        list.head == h,
        list.tail == tail,
{
    HCons { head: h, tail }
}

impl HNil {
    /// Returns the length of the list.
    #[must_use]
    pub fn len(&self) -> (n: usize) where Self: HList
        ensures
            n == 0,
    {
        HList::len(self)
    }

    /// Returns whether the list is empty.
    #[must_use]
    pub fn is_empty(&self) -> (b: bool) where Self: HList
        ensures
            b,
    {
        HList::is_empty(self)
    }

    /// Prepends an item to the list.
    pub fn prepend<H>(self, h: H) -> (list: HCons<H, Self>) where Self: HList
        ensures
            list.head == h,
            list.tail == self,
    {
        HList::prepend(self, h)
    }

    /// Consumes the list and returns a list of the requested shape, with
    /// the elements that the shape does not take.
    #[must_use]
    pub fn sculpt<Ts, Indices>(self) -> (r: (Ts, <Self as Sculptor<Ts, Indices>>::Remainder)) where
        Self: Sculptor<Ts, Indices>,

        ensures
            r == <Self as Sculptor<Ts, Indices>>::sculpted(self),
    {
        Sculptor::sculpt(self)
    }

    /// Applies the mapper to each element of the list.
    pub fn map<F, Output>(self, mapper: F) -> (out: Output) where Self: HMappable<F, Output>
        requires
            HMappable::<F, Output>::map_requires(self, mapper),
        ensures
            HMappable::<F, Output>::map_ensures(self, mapper, out),
    {
        HMappable::map(self, mapper)
    }

    /// Zips the list with another one of the same length.
    pub fn zip<Other: HList>(self, other: Other) -> (z: <Self as HZippable<Other>>::Zipped) where
        Self: HZippable<Other>,

        ensures
            z == <Self as HZippable<Other>>::zipped(self, other),
    {
        HZippable::zip(self, other)
    }

    /// Folds the list from the left.
    pub fn foldl<Folder, Acc, Output>(self, folder: Folder, acc: Acc) -> (out: Output) where
        Self: HFoldLeftable<Folder, Acc, Output>,

        requires
            HFoldLeftable::<Folder, Acc, Output>::foldl_requires(self, folder, acc),
        ensures
            HFoldLeftable::<Folder, Acc, Output>::foldl_ensures(self, folder, acc, out),
    {
        HFoldLeftable::foldl(self, folder, acc)
    }

    /// Folds the list from the right; the folder takes the element first
    /// and the accumulator second.
    pub fn foldr<Folder, Init, Output>(self, folder: Folder, init: Init) -> (out: Output) where
        Self: HFoldRightable<Folder, Init, Output>,

        requires
            HFoldRightable::<Folder, Init, Output>::foldr_requires(self, folder, init),
        ensures
            HFoldRightable::<Folder, Init, Output>::foldr_ensures(self, folder, init, out),
    {
        HFoldRightable::foldr(self, folder, init)
    }

    /// Extends the list with another list: the same as `+`.
    pub fn extend<Other>(self, other: Other) -> (out: <Self as Add<Other>>::Output) where
        Self: Add<Other>,
        Other: HList,

        requires
            <Self as AddSpec<Other>>::add_req(self, other),
        ensures
            <Self as AddSpec<Other>>::obeys_add_spec() ==> out == <Self as AddSpec<
                Other,
            >>::add_spec(self, other),
    {
        self + other
    }
}

impl<Head, Tail> HCons<Head, Tail> {
    /// Returns the length of the list.
    #[must_use]
    pub fn len(&self) -> (n: usize) where Self: HList
        ensures
            n == <Self as HList>::LEN,
            <Self as HList>::spec_len() <= usize::MAX ==> n == <Self as HList>::spec_len(),
    {
        HList::len(self)
    }

    /// Returns whether the list is empty.
    #[must_use]
    pub fn is_empty(&self) -> (b: bool) where Self: HList
        ensures
            b == (<Self as HList>::LEN == 0),
            <Self as HList>::spec_len() <= usize::MAX ==> b == (<Self as HList>::spec_len() == 0),
    {
        HList::is_empty(self)
    }

    /// Prepends an item to the list.
    pub fn prepend<H>(self, h: H) -> (list: HCons<H, Self>) where Self: HList
        ensures
            list.head == h,
            list.tail == self,
    {
        HList::prepend(self, h)
    }

    /// Consumes the list and returns a list of the requested shape, with
    /// the elements that the shape does not take.
    ///
    /// The requested types must stand in the list; `Indices` lets the
    /// compiler find where.
    #[must_use]
    pub fn sculpt<Ts, Indices>(self) -> (r: (Ts, <Self as Sculptor<Ts, Indices>>::Remainder)) where
        Self: Sculptor<Ts, Indices>,

        ensures
            r == <Self as Sculptor<Ts, Indices>>::sculpted(self),
    {
        Sculptor::sculpt(self)
    }

    /// Applies the mapper to each element of the list.
    ///
    /// The mapper is one function, for a list whose elements have one
    /// type, or a list of functions, one for each element.
    pub fn map<F, Output>(self, mapper: F) -> (out: Output) where Self: HMappable<F, Output>
        requires
            HMappable::<F, Output>::map_requires(self, mapper),
        ensures
            HMappable::<F, Output>::map_ensures(self, mapper, out),
    {
        HMappable::map(self, mapper)
    }

    /// Zips the list with another one of the same length into the list of
    /// the pairs.
    pub fn zip<Other: HList>(self, other: Other) -> (z: <Self as HZippable<Other>>::Zipped) where
        Self: HZippable<Other>,

        ensures
            z == <Self as HZippable<Other>>::zipped(self, other),
    {
        HZippable::zip(self, other)
    }

    /// Folds the list from the left: the elements are visited in order,
    /// and the accumulator may change its type on the way.
    pub fn foldl<Folder, Acc, Output>(self, folder: Folder, acc: Acc) -> (out: Output) where
        Self: HFoldLeftable<Folder, Acc, Output>,

        requires
            HFoldLeftable::<Folder, Acc, Output>::foldl_requires(self, folder, acc),
        ensures
            HFoldLeftable::<Folder, Acc, Output>::foldl_ensures(self, folder, acc, out),
    {
        HFoldLeftable::foldl(self, folder, acc)
    }

    /// Folds the list from the right: each `HCons` is replaced by the
    /// folder and `HNil` by `init`, so the last element is folded first.
    /// The folder takes the element first and the accumulator second.
    pub fn foldr<Folder, Init, Output>(self, folder: Folder, init: Init) -> (out: Output) where
        Self: HFoldRightable<Folder, Init, Output>,

        requires
            HFoldRightable::<Folder, Init, Output>::foldr_requires(self, folder, init),
        ensures
            HFoldRightable::<Folder, Init, Output>::foldr_ensures(self, folder, init, out),
    {
        HFoldRightable::foldr(self, folder, init)
    }

    /// Extends the list with another list: the same as `+`.
    pub fn extend<Other>(self, other: Other) -> (out: <Self as Add<Other>>::Output) where
        Self: Add<Other>,
        Other: HList,

        requires
            <Self as AddSpec<Other>>::add_req(self, other),
        ensures
            <Self as AddSpec<Other>>::obeys_add_spec() ==> out == <Self as AddSpec<
                Other,
            >>::add_spec(self, other),
    {
        self + other
    }

    /// Borrows the element of type `T`.
    pub fn get<T, Index>(&self) -> (r: &T) where Self: Selector<T, Index>
        ensures
            *r == <Self as Selector<T, Index>>::selected(*self),
    {
        Selector::get(self)
    }

    /// Mutably borrows the element of type `T`. Whatever is written through
    /// the borrow replaces that element and nothing else.
    pub fn get_mut<T, Index>(&mut self) -> (r: &mut T) where Self: Selector<T, Index>
        ensures
            *r == <Self as Selector<T, Index>>::selected(*old(self)),
            *final(self) == <Self as Selector<T, Index>>::replaced(*old(self), *final(r)),
    {
        Selector::get_mut(self)
    }

    /// Removes the element of type `T` and returns it with the remaining
    /// elements.
    pub fn pluck<T, Index>(self) -> (r: (T, <Self as Plucker<T, Index>>::Remainder)) where
        Self: Plucker<T, Index>,

        ensures
            r == <Self as Plucker<T, Index>>::plucked(self),
    {
        Plucker::pluck(self)
    }

    /// Turns the list into nested pairs, which are easier to match on and
    /// have a shorter type.
    pub fn into_tuple2(self) -> (r: (
        <Self as IntoTuple2>::HeadType,
        <Self as IntoTuple2>::TailOutput,
    )) where Self: IntoTuple2
        ensures
            r == <Self as IntoTuple2>::tuple2(self),
    {
        IntoTuple2::into_tuple2(self)
    }
}

/// Concatenation: the empty list followed by `rhs` is `rhs`.
impl<RHS> Add<RHS> for HNil where RHS: HList {
    type Output = RHS;

    fn add(self, rhs: RHS) -> RHS {
        rhs
    }
}

impl<RHS> AddSpecImpl<RHS> for HNil where RHS: HList {
    open spec fn obeys_add_spec() -> bool {
        true
    }

    open spec fn add_req(self, rhs: RHS) -> bool {
        true
    }

    open spec fn add_spec(self, rhs: RHS) -> RHS {
        rhs
    }
}

/// Concatenation: a non-empty list followed by `rhs` keeps its head in front
/// of the concatenation of its tail and `rhs`.
impl<H, T, RHS> Add<RHS> for HCons<H, T> where T: Add<RHS>, RHS: HList {
    type Output = HCons<H, <T as Add<RHS>>::Output>;

    fn add(self, rhs: RHS) -> Self::Output {
        HCons { head: self.head, tail: self.tail + rhs }
    }
}

impl<H, T, RHS> AddSpecImpl<RHS> for HCons<H, T> where T: Add<RHS>, RHS: HList {
    open spec fn obeys_add_spec() -> bool {
        T::obeys_add_spec()
    }

    open spec fn add_req(self, rhs: RHS) -> bool {
        self.tail.add_req(rhs)
    }

    open spec fn add_spec(self, rhs: RHS) -> Self::Output {
        HCons { head: self.head, tail: self.tail.add_spec(rhs) }
    }
}

/// Lists that can be followed by the list `RHS`, with what is known of the
/// length of the result.
pub trait HExtend<RHS: HList>: HList + Add<RHS> where <Self as Add<RHS>>::Output: HList {
    /// Concatenation adds lengths.
    proof fn lemma_extend_len()
        ensures
            <<Self as Add<RHS>>::Output as HList>::spec_len() == Self::spec_len()
                + RHS::spec_len(),
    ;

    /// Every list can be followed by every list, and `+` gives the
    /// concatenation that `add_spec` describes.
    proof fn lemma_extend_accepts(self, rhs: RHS)
        ensures
            <Self as AddSpec<RHS>>::add_req(self, rhs),
            <Self as AddSpec<RHS>>::obeys_add_spec(),
    ;
}

impl<RHS: HList> HExtend<RHS> for HNil {
    proof fn lemma_extend_len() {
    }

    proof fn lemma_extend_accepts(self, rhs: RHS) {
    }
}

impl<H, T: HExtend<RHS>, RHS: HList> HExtend<RHS> for HCons<H, T> where
    <T as Add<RHS>>::Output: HList,
 {
    proof fn lemma_extend_len() {
        T::lemma_extend_len();
    }

    proof fn lemma_extend_accepts(self, rhs: RHS) {
        self.tail.lemma_extend_accepts(rhs);
    }
}

/// Borrowing an element of type `S` that stands at the index `I`.
///
/// This trait is the implementation of the methods [`HCons::get`] and
/// [`HCons::get_mut`]; import it only to work with lists of unknown type.
pub trait Selector<S, I>: Sized {
    /// The element at the index.
    spec fn selected(self) -> S;

    /// The list with the element at the index replaced by `s`.
    spec fn replaced(self, s: S) -> Self;

    /// Selecting from a list whose element was replaced gives the new
    /// element, and putting the selected element back changes nothing.
    proof fn lemma_select_replace(self, s: S)
        ensures
            self.replaced(s).selected() == s,
            self.replaced(self.selected()) == self,
    ;

    /// Borrows the element at the index.
    fn get(&self) -> (r: &S)
        ensures
            *r == self.selected(),
    ;

    /// Mutably borrows the element at the index. Whatever is written through
    /// the borrow replaces that element and nothing else.
    fn get_mut(&mut self) -> (r: &mut S)
        ensures
            *r == old(self).selected(),
            *final(self) == old(self).replaced(*final(r)),
    ;
}

impl<T, Tail> Selector<T, Here> for HCons<T, Tail> {
    open spec fn selected(self) -> T {
        self.head
    }

    open spec fn replaced(self, s: T) -> Self {
        HCons { head: s, tail: self.tail }
    }

    proof fn lemma_select_replace(self, s: T) {
    }

    fn get(&self) -> (r: &T) {
        &self.head
    }

    fn get_mut(&mut self) -> (r: &mut T) {
        &mut self.head
    }
}

impl<Head, Tail, FromTail, TailIndex> Selector<FromTail, There<TailIndex>> for HCons<
    Head,
    Tail,
> where Tail: Selector<FromTail, TailIndex> {
    open spec fn selected(self) -> FromTail {
        self.tail.selected()
    }

    open spec fn replaced(self, s: FromTail) -> Self {
        HCons { head: self.head, tail: self.tail.replaced(s) }
    }

    proof fn lemma_select_replace(self, s: FromTail) {
        self.tail.lemma_select_replace(s);
    }

    fn get(&self) -> (r: &FromTail) {
        self.tail.get()
    }

    fn get_mut(&mut self) -> (r: &mut FromTail) {
        self.tail.get_mut()
    }
}

/// Removing the element of type `Target` that stands at the index `Index`.
///
/// This trait is the implementation of the method [`HCons::pluck`]; import
/// it only to work with lists of unknown type.
pub trait Plucker<Target, Index>: Sized {
    /// What is left of the list once the target is removed.
    type Remainder;

    /// The element at the index, and the list without it.
    spec fn plucked(self) -> (Target, Self::Remainder);

    /// The list that holds `target` at the index and the elements of
    /// `remainder` elsewhere.
    spec fn unplucked(target: Target, remainder: Self::Remainder) -> Self;

    /// Putting the plucked element back where it stood recovers the list.
    proof fn lemma_pluck_unpluck(self)
        ensures
            Self::unplucked(self.plucked().0, self.plucked().1) == self,
    ;

    /// Plucking an element that was just put in gives it back, with the
    /// list it was put into.
    proof fn lemma_unpluck_pluck(target: Target, remainder: Self::Remainder)
        ensures
            Self::unplucked(target, remainder).plucked() == (target, remainder),
    ;

    /// Removes the element at the index and returns it with the remainder.
    fn pluck(self) -> (r: (Target, Self::Remainder))
        ensures
            r == self.plucked(),
    ;
}

/// The target is the head.
impl<T, Tail> Plucker<T, Here> for HCons<T, Tail> {
    type Remainder = Tail;

    open spec fn plucked(self) -> (T, Tail) {
        (self.head, self.tail)
    }

    open spec fn unplucked(target: T, remainder: Tail) -> Self {
        HCons { head: target, tail: remainder }
    }

    proof fn lemma_pluck_unpluck(self) {
    }

    proof fn lemma_unpluck_pluck(target: T, remainder: Tail) {
    }

    fn pluck(self) -> (r: (T, Self::Remainder)) {
        (self.head, self.tail)
    }
}

/// The target is in the tail.
impl<Head, Tail, FromTail, TailIndex> Plucker<FromTail, There<TailIndex>> for HCons<
    Head,
    Tail,
> where Tail: Plucker<FromTail, TailIndex> {
    type Remainder = HCons<Head, <Tail as Plucker<FromTail, TailIndex>>::Remainder>;

    open spec fn plucked(self) -> (FromTail, Self::Remainder) {
        (self.tail.plucked().0, HCons { head: self.head, tail: self.tail.plucked().1 })
    }

    open spec fn unplucked(target: FromTail, remainder: Self::Remainder) -> Self {
        HCons { head: remainder.head, tail: Tail::unplucked(target, remainder.tail) }
    }

    proof fn lemma_pluck_unpluck(self) {
        self.tail.lemma_pluck_unpluck();
    }

    proof fn lemma_unpluck_pluck(target: FromTail, remainder: Self::Remainder) {
        Tail::lemma_unpluck_pluck(target, remainder.tail);
    }

    fn pluck(self) -> (r: (FromTail, Self::Remainder)) {
        let (target, tail_remainder): (
            FromTail,
            <Tail as Plucker<FromTail, TailIndex>>::Remainder,
        ) = <Tail as Plucker<FromTail, TailIndex>>::pluck(self.tail);
        (target, HCons { head: self.head, tail: tail_remainder })
    }
}

/// The target is in the tail of a borrowed list: the remainder borrows
/// the other elements.
impl<'a, Head, Tail, FromTail, TailIndex> Plucker<&'a FromTail, There<TailIndex>> for &'a HCons<
    Head,
    Tail,
> where &'a Tail: Plucker<&'a FromTail, TailIndex> {
    type Remainder = HCons<&'a Head, <&'a Tail as Plucker<&'a FromTail, TailIndex>>::Remainder>;

    open spec fn plucked(self) -> (&'a FromTail, Self::Remainder) {
        let (target, tail_remainder) = <&'a Tail as Plucker<&'a FromTail, TailIndex>>::plucked(
            &self.tail,
        );
        (target, HCons { head: &self.head, tail: tail_remainder })
    }

    open spec fn unplucked(target: &'a FromTail, remainder: Self::Remainder) -> Self {
        &HCons {
            head: *remainder.head,
            tail: *<&'a Tail as Plucker<&'a FromTail, TailIndex>>::unplucked(
                target,
                remainder.tail,
            ),
        }
    }

    proof fn lemma_pluck_unpluck(self) {
        <&'a Tail as Plucker<&'a FromTail, TailIndex>>::lemma_pluck_unpluck(&self.tail);
    }

    proof fn lemma_unpluck_pluck(target: &'a FromTail, remainder: Self::Remainder) {
        <&'a Tail as Plucker<&'a FromTail, TailIndex>>::lemma_unpluck_pluck(
            target,
            remainder.tail,
        );
    }

    fn pluck(self) -> (r: (&'a FromTail, Self::Remainder)) {
        let (target, tail_remainder): (
            &'a FromTail,
            <&'a Tail as Plucker<&'a FromTail, TailIndex>>::Remainder,
        ) = <&'a Tail as Plucker<&'a FromTail, TailIndex>>::pluck(&self.tail);
        (target, HCons { head: &self.head, tail: tail_remainder })
    }
}

/// Reshaping a list into the list `Target` of some of its elements, found
/// at `Indices`, and the list of the others.
///
/// This trait is the implementation of the method `sculpt`; import it only
/// to work with lists of unknown type.
pub trait Sculptor<Target, Indices>: Sized {
    /// The elements that the target does not take, in their order.
    type Remainder;

    /// The requested elements in the requested order, and the others.
    spec fn sculpted(self) -> (Target, Self::Remainder);

    /// The list from which `target` and `remainder` were sculpted.
    spec fn unsculpted(target: Target, remainder: Self::Remainder) -> Self;

    /// Putting the extracted elements and the remainder back together
    /// recovers the list.
    proof fn lemma_sculpt_unsculpt(self)
        ensures
            Self::unsculpted(self.sculpted().0, self.sculpted().1) == self,
    ;

    /// Consumes the list and returns the requested shape with the remainder.
    fn sculpt(self) -> (r: (Target, Self::Remainder))
        ensures
            r == self.sculpted(),
    ;
}

/// The target is empty: everything remains.
impl<Source> Sculptor<HNil, HNil> for Source {
    type Remainder = Source;

    open spec fn sculpted(self) -> (HNil, Source) {
        (HNil, self)
    }

    open spec fn unsculpted(target: HNil, remainder: Source) -> Self {
        remainder
    }

    proof fn lemma_sculpt_unsculpt(self) {
    }

    fn sculpt(self) -> (r: (HNil, Self::Remainder)) {
        (HNil, self)
    }
}

/// The target is not empty: its head is plucked from the list at
/// `IndexHead`, and its tail is sculpted from what the plucking left.
impl<THead, TTail, SHead, STail, IndexHead, IndexTail> Sculptor<
    HCons<THead, TTail>,
    HCons<IndexHead, IndexTail>,
> for HCons<SHead, STail> where
    Self: Plucker<THead, IndexHead>,
    <Self as Plucker<THead, IndexHead>>::Remainder: Sculptor<TTail, IndexTail>,
 {
    type Remainder = <<Self as Plucker<THead, IndexHead>>::Remainder as Sculptor<
        TTail,
        IndexTail,
    >>::Remainder;

    open spec fn sculpted(self) -> (HCons<THead, TTail>, Self::Remainder) {
        let (p, r) = <Self as Plucker<THead, IndexHead>>::plucked(self);
        let (tail, tail_remainder) = <<Self as Plucker<
            THead,
            IndexHead,
        >>::Remainder as Sculptor<TTail, IndexTail>>::sculpted(r);
        (HCons { head: p, tail }, tail_remainder)
    }

    open spec fn unsculpted(target: HCons<THead, TTail>, remainder: Self::Remainder) -> Self {
        <Self as Plucker<THead, IndexHead>>::unplucked(
            target.head,
            <<Self as Plucker<THead, IndexHead>>::Remainder as Sculptor<
                TTail,
                IndexTail,
            >>::unsculpted(target.tail, remainder),
        )
    }

    proof fn lemma_sculpt_unsculpt(self) {
        let (p, r) = <Self as Plucker<THead, IndexHead>>::plucked(self);
        <<Self as Plucker<THead, IndexHead>>::Remainder as Sculptor<
            TTail,
            IndexTail,
        >>::lemma_sculpt_unsculpt(r);
        <Self as Plucker<THead, IndexHead>>::lemma_pluck_unpluck(self);
    }

    fn sculpt(self) -> (r: (HCons<THead, TTail>, Self::Remainder)) {
        let (p, r): (THead, <Self as Plucker<THead, IndexHead>>::Remainder) = Plucker::pluck(
            self,
        );
        let (tail, tail_remainder): (TTail, Self::Remainder) = Sculptor::sculpt(r);
        (HCons { head: p, tail }, tail_remainder)
    }
}

/// Lists from which the element of type `Target` at `Index` can be both
/// selected and plucked, with what is known of the parts for every such
/// list.
pub trait HPluck<Target, Index>: HList + Plucker<Target, Index> + Selector<Target, Index> where
    <Self as Plucker<Target, Index>>::Remainder: HList,
 {
    /// The plucked element is the selected one, and putting another
    /// element where it stood is replacing it.
    proof fn lemma_pluck_selects(self, s: Target)
        ensures
            <Self as Plucker<Target, Index>>::plucked(self).0 == <Self as Selector<
                Target,
                Index,
            >>::selected(self),
            <Self as Plucker<Target, Index>>::unplucked(
                s,
                <Self as Plucker<Target, Index>>::plucked(self).1,
            ) == <Self as Selector<Target, Index>>::replaced(self, s),
    ;

    /// The remainder is one shorter than the list.
    proof fn lemma_pluck_len()
        ensures
            <<Self as Plucker<Target, Index>>::Remainder as HList>::spec_len() + 1
                == Self::spec_len(),
    ;
}

impl<T, Tail: HList> HPluck<T, Here> for HCons<T, Tail> {
    proof fn lemma_pluck_selects(self, s: T) {
    }

    proof fn lemma_pluck_len() {
    }
}

impl<Head, Tail, FromTail, TailIndex> HPluck<FromTail, There<TailIndex>> for HCons<
    Head,
    Tail,
> where
    Tail: HPluck<FromTail, TailIndex>,
    <Tail as Plucker<FromTail, TailIndex>>::Remainder: HList,
 {
    proof fn lemma_pluck_selects(self, s: FromTail) {
        self.tail.lemma_pluck_selects(s);
    }

    proof fn lemma_pluck_len() {
        Tail::lemma_pluck_len();
    }
}

/// Lists that can be sculpted into the list `Target`, with what is known
/// of the lengths of the parts for every such list.
pub trait HSculpt<Target: HList, Indices>: HList + Sculptor<Target, Indices> where
    <Self as Sculptor<Target, Indices>>::Remainder: HList,
 {
    /// The target and the remainder have, together, the length of the
    /// list.
    proof fn lemma_sculpt_len()
        ensures
            Target::spec_len() + <<Self as Sculptor<Target, Indices>>::Remainder as HList>::spec_len()
                == Self::spec_len(),
    ;
}

impl<Source: HList> HSculpt<HNil, HNil> for Source {
    proof fn lemma_sculpt_len() {
    }
}

impl<THead, TTail, SHead, STail, IndexHead, IndexTail> HSculpt<
    HCons<THead, TTail>,
    HCons<IndexHead, IndexTail>,
> for HCons<SHead, STail> where
    TTail: HList,
    Self: HPluck<THead, IndexHead>,
    <Self as Plucker<THead, IndexHead>>::Remainder: HSculpt<TTail, IndexTail>,
    <<Self as Plucker<THead, IndexHead>>::Remainder as Sculptor<TTail, IndexTail>>::Remainder: HList,
 {
    proof fn lemma_sculpt_len() {
        <Self as HPluck<THead, IndexHead>>::lemma_pluck_len();
        <<Self as Plucker<THead, IndexHead>>::Remainder as HSculpt<
            TTail,
            IndexTail,
        >>::lemma_sculpt_len();
    }
}

/// Pairing the elements of a list with those of the list `Other`.
///
/// This trait is the implementation of the method `zip`; import it only to
/// work with lists of unknown type.
pub trait HZippable<Other: HList>: HList {
    /// The list of the pairs.
    type Zipped: HList;

    /// The list that pairs each element with the element of `other` at the
    /// same position.
    spec fn zipped(self, other: Other) -> Self::Zipped;

    /// The list of the first components and the list of the second ones.
    spec fn unzipped(zipped: Self::Zipped) -> (Self, Other);

    /// Both lists can be read back from the list of their pairs.
    proof fn lemma_zip_unzip(self, other: Other)
        ensures
            Self::unzipped(self.zipped(other)) == (self, other),
    ;

    /// Two lists that can be zipped have one length, and the list of their
    /// pairs has it too.
    proof fn lemma_zip_len()
        ensures
            Self::spec_len() == Other::spec_len(),
            <Self::Zipped as HList>::spec_len() == Self::spec_len(),
    ;

    /// Zips this list with another one.
    fn zip(self, other: Other) -> (z: Self::Zipped)
        ensures
            z == self.zipped(other),
    ;
}

impl HZippable<HNil> for HNil {
    type Zipped = HNil;

    open spec fn zipped(self, other: HNil) -> HNil {
        HNil
    }

    open spec fn unzipped(zipped: HNil) -> (HNil, HNil) {
        (HNil, HNil)
    }

    proof fn lemma_zip_unzip(self, other: HNil) {
    }

    proof fn lemma_zip_len() {
    }

    fn zip(self, _other: HNil) -> (z: HNil) {
        HNil
    }
}

impl<H1, T1, H2, T2> HZippable<HCons<H2, T2>> for HCons<H1, T1> where
    T1: HZippable<T2>,
    T2: HList,
 {
    type Zipped = HCons<(H1, H2), T1::Zipped>;

    open spec fn zipped(self, other: HCons<H2, T2>) -> Self::Zipped {
        HCons { head: (self.head, other.head), tail: self.tail.zipped(other.tail) }
    }

    open spec fn unzipped(zipped: Self::Zipped) -> (Self, HCons<H2, T2>) {
        let (t1, t2) = T1::unzipped(zipped.tail);
        (HCons { head: zipped.head.0, tail: t1 }, HCons { head: zipped.head.1, tail: t2 })
    }

    proof fn lemma_zip_unzip(self, other: HCons<H2, T2>) {
        self.tail.lemma_zip_unzip(other.tail);
    }

    proof fn lemma_zip_len() {
        T1::lemma_zip_len();
    }

    fn zip(self, other: HCons<H2, T2>) -> (z: Self::Zipped) {
        HCons { head: (self.head, other.head), tail: self.tail.zip(other.tail) }
    }
}

/// Turning a list into nested pairs, which are easier to match on.
///
/// This trait is the implementation of the method [`HCons::into_tuple2`].
pub trait IntoTuple2: Sized {
    /// The first component of the pair.
    type HeadType;

    /// The second component of the pair.
    type TailOutput;

    /// The head, paired with the pair that the tail turns into.
    spec fn tuple2(self) -> (Self::HeadType, Self::TailOutput);

    /// Turns the list into nested pairs.
    fn into_tuple2(self) -> (r: (Self::HeadType, Self::TailOutput))
        ensures
            r == self.tuple2(),
    ;
}

impl<T1, T2> IntoTuple2 for HCons<T1, HCons<T2, HNil>> {
    type HeadType = T1;

    type TailOutput = T2;

    open spec fn tuple2(self) -> (T1, T2) {
        (self.head, self.tail.head)
    }

    fn into_tuple2(self) -> (r: (Self::HeadType, Self::TailOutput)) {
        (self.head, self.tail.head)
    }
}

impl<T, Tail> IntoTuple2 for HCons<T, Tail> where Tail: IntoTuple2 {
    type HeadType = T;

    type TailOutput = (<Tail as IntoTuple2>::HeadType, <Tail as IntoTuple2>::TailOutput);

    open spec fn tuple2(self) -> (Self::HeadType, Self::TailOutput) {
        (self.head, self.tail.tuple2())
    }

    fn into_tuple2(self) -> (r: (Self::HeadType, Self::TailOutput)) {
        (self.head, self.tail.into_tuple2())
    }
}

/// Mapping over a list.
///
/// The mapper is either one function, applied to every element, or a list
/// of functions, one for each element; `Output` is the list of the results.
/// This trait is the implementation of the method `map`; import it only to
/// work with lists or mappers of unknown type.
pub trait HMappable<Mapper, Output>: Sized {
    /// Whether the mapper accepts each element it will be applied to.
    spec fn map_requires(self, mapper: Mapper) -> bool;

    /// Whether `out` holds, position by position, a result of the mapper on
    /// the element at that position.
    spec fn map_ensures(self, mapper: Mapper, out: Output) -> bool;

    /// Applies the mapper to each element of the list.
    fn map(self, mapper: Mapper) -> (out: Output)
        requires
            self.map_requires(mapper),
        ensures
            self.map_ensures(mapper, out),
    ;
}

impl<F> HMappable<F, HNil> for HNil {
    open spec fn map_requires(self, mapper: F) -> bool {
        true
    }

    open spec fn map_ensures(self, mapper: F, out: HNil) -> bool {
        out == HNil
    }

    fn map(self, _mapper: F) -> (out: HNil) {
        HNil
    }
}

/// One function for all the elements.
impl<F, R, H, Tail, TailOutput> HMappable<F, HCons<R, TailOutput>> for HCons<H, Tail> where
    F: Fn(H) -> R,
    Tail: HMappable<F, TailOutput>,
 {
    open spec fn map_requires(self, f: F) -> bool {
        &&& f.requires((self.head, ))
        &&& self.tail.map_requires(f)
    }

    open spec fn map_ensures(self, f: F, out: HCons<R, TailOutput>) -> bool {
        &&& f.ensures((self.head, ), out.head)
        &&& self.tail.map_ensures(f, out.tail)
    }

    fn map(self, f: F) -> (out: HCons<R, TailOutput>) {
        let HCons { head, tail } = self;
        HCons { head: f(head), tail: tail.map(f) }
    }
}

/// A list of functions, one for each element.
impl<F, R, MapperTail, H, Tail, TailOutput> HMappable<
    HCons<F, MapperTail>,
    HCons<R, TailOutput>,
> for HCons<H, Tail> where F: FnOnce(H) -> R, Tail: HMappable<MapperTail, TailOutput> {
    open spec fn map_requires(self, mapper: HCons<F, MapperTail>) -> bool {
        &&& mapper.head.requires((self.head, ))
        &&& self.tail.map_requires(mapper.tail)
    }

    open spec fn map_ensures(self, mapper: HCons<F, MapperTail>, out: HCons<R, TailOutput>) -> bool {
        &&& mapper.head.ensures((self.head, ), out.head)
        &&& self.tail.map_ensures(mapper.tail, out.tail)
    }

    fn map(self, mapper: HCons<F, MapperTail>) -> (out: HCons<R, TailOutput>) {
        let HCons { head, tail } = self;
        HCons { head: (mapper.head)(head), tail: tail.map(mapper.tail) }
    }
}

/// What mapping one function over a non-empty list asks and gives, stated
/// for any function type, the types of closures and of named functions
/// included.
pub proof fn lemma_map_with_fn<F, R, H, Tail, TailOutput>(
    list: HCons<H, Tail>,
    f: F,
    out: HCons<R, TailOutput>,
) where F: Fn(H) -> R, Tail: HMappable<F, TailOutput>
    ensures
        list.map_requires(f) <==> f.requires((list.head, )) && list.tail.map_requires(f),
        list.map_ensures(f, out) <==> f.ensures((list.head, ), out.head)
            && list.tail.map_ensures(f, out.tail),
{
}

/// What mapping a list of functions over a non-empty list asks and gives,
/// stated for any function type, the types of closures and of named
/// functions included.
pub proof fn lemma_map_with_list<F, R, MapperTail, H, Tail, TailOutput>(
    list: HCons<H, Tail>,
    mapper: HCons<F, MapperTail>,
    out: HCons<R, TailOutput>,
) where F: FnOnce(H) -> R, Tail: HMappable<MapperTail, TailOutput>
    ensures
        list.map_requires(mapper) <==> mapper.head.requires((list.head, ))
            && list.tail.map_requires(mapper.tail),
        list.map_ensures(mapper, out) <==> mapper.head.ensures((list.head, ), out.head)
            && list.tail.map_ensures(mapper.tail, out.tail),
{
}

/// Folding a list from the left.
///
/// The folder is either one function, applied at every element, or a list
/// of functions, one for each element; `Output` is the type of the result.
/// This trait is the implementation of the method `foldl`; import it only
/// to work with lists or folders of unknown type.
pub trait HFoldLeftable<Folder, Acc, Output>: Sized {
    /// Whether the folder accepts each argument it will be applied to,
    /// whatever the steps before return.
    spec fn foldl_requires(self, folder: Folder, acc: Acc) -> bool;

    /// Whether `out` is a result of folding the list from the left,
    /// starting from `acc`.
    spec fn foldl_ensures(self, folder: Folder, acc: Acc, out: Output) -> bool;

    /// Folds the list from the left.
    fn foldl(self, folder: Folder, acc: Acc) -> (out: Output)
        requires
            self.foldl_requires(folder, acc),
        ensures
            self.foldl_ensures(folder, acc, out),
    ;
}

impl<F, Acc> HFoldLeftable<F, Acc, Acc> for HNil {
    open spec fn foldl_requires(self, folder: F, acc: Acc) -> bool {
        true
    }

    open spec fn foldl_ensures(self, folder: F, acc: Acc, out: Acc) -> bool {
        out == acc
    }

    fn foldl(self, _folder: F, acc: Acc) -> (out: Acc) {
        acc
    }
}

/// A list of functions, one for each element; the accumulator may change
/// its type at each step.
impl<F, FTail, H, Tail, Acc, Output> HFoldLeftable<HCons<F, FTail>, Acc, Output> for HCons<
    H,
    Tail,
> where Tail: HFoldLeftable<FTail, <F as FnOnce<(Acc, H)>>::Output, Output>, F: FnOnce<(Acc, H)> {
    open spec fn foldl_requires(self, folder: HCons<F, FTail>, acc: Acc) -> bool {
        &&& folder.head.requires((acc, self.head))
        &&& forall|r: <F as FnOnce<(Acc, H)>>::Output|
            folder.head.ensures((acc, self.head), r) ==> #[trigger] self.tail.foldl_requires(
                folder.tail,
                r,
            )
    }

    open spec fn foldl_ensures(self, folder: HCons<F, FTail>, acc: Acc, out: Output) -> bool {
        exists|r: <F as FnOnce<(Acc, H)>>::Output|
            folder.head.ensures((acc, self.head), r) && #[trigger] self.tail.foldl_ensures(
                folder.tail,
                r,
                out,
            )
    }

    fn foldl(self, folder: HCons<F, FTail>, acc: Acc) -> (out: Output) {
        let HCons { head, tail } = self;
        tail.foldl(folder.tail, (folder.head)(acc, head))
    }
}

/// One function for all the elements.
impl<F, H, Tail, Acc, Output> HFoldLeftable<F, Acc, Output> for HCons<H, Tail> where
    Tail: HFoldLeftable<F, Acc, Output>,
    F: Fn(Acc, H) -> Acc,
 {
    open spec fn foldl_requires(self, f: F, acc: Acc) -> bool {
        &&& f.requires((acc, self.head))
        &&& forall|r: Acc|
            f.ensures((acc, self.head), r) ==> #[trigger] self.tail.foldl_requires(f, r)
    }

    open spec fn foldl_ensures(self, f: F, acc: Acc, out: Output) -> bool {
        exists|r: Acc|
            f.ensures((acc, self.head), r) && #[trigger] self.tail.foldl_ensures(f, r, out)
    }

    fn foldl(self, f: F, acc: Acc) -> (out: Output) {
        let HCons { head, tail } = self;
        let acc = f(acc, head);
        tail.foldl(f, acc)
    }
}

/// What folding a non-empty list from the left with one function asks and
/// gives, stated for any function type, the types of closures and of named
/// functions included.
pub proof fn lemma_foldl_with_fn<F, H, Tail, Acc, Output>(
    list: HCons<H, Tail>,
    f: F,
    acc: Acc,
    out: Output,
) where Tail: HFoldLeftable<F, Acc, Output>, F: Fn(Acc, H) -> Acc
    ensures
        list.foldl_requires(f, acc) <==> f.requires((acc, list.head)) && forall|r: Acc|
            f.ensures((acc, list.head), r) ==> #[trigger] list.tail.foldl_requires(f, r),
        list.foldl_ensures(f, acc, out) <==> exists|r: Acc|
            f.ensures((acc, list.head), r) && #[trigger] list.tail.foldl_ensures(f, r, out),
{
}

/// What folding a non-empty list from the left with a list of functions
/// asks and gives, stated for any function type, the types of closures and
/// of named functions included.
pub proof fn lemma_foldl_with_list<F, R, FTail, H, Tail, Acc, Output>(
    list: HCons<H, Tail>,
    folder: HCons<F, FTail>,
    acc: Acc,
    out: Output,
) where Tail: HFoldLeftable<FTail, R, Output>, F: FnOnce(Acc, H) -> R
    ensures
        list.foldl_requires(folder, acc) <==> folder.head.requires((acc, list.head))
            && forall|r: R|
            folder.head.ensures((acc, list.head), r) ==> #[trigger] list.tail.foldl_requires(
                folder.tail,
                r,
            ),
        list.foldl_ensures(folder, acc, out) <==> exists|r: R|
            folder.head.ensures((acc, list.head), r) && #[trigger] list.tail.foldl_ensures(
                folder.tail,
                r,
                out,
            ),
{
}

/// The type that folding a list from the right gives, computed from the
/// types of the list, of the folder and of the initial value.
pub trait HFoldRightOutput<Folder, Init> {
    /// The type of the result.
    type Output;
}

impl<F, Init> HFoldRightOutput<F, Init> for HNil {
    type Output = Init;
}

impl<F, FolderTail, H, Tail, Init> HFoldRightOutput<HCons<F, FolderTail>, Init> for HCons<
    H,
    Tail,
> where
    Tail: HFoldRightOutput<FolderTail, Init>,
    F: FnOnce<(H, <Tail as HFoldRightOutput<FolderTail, Init>>::Output)>,
 {
    type Output = <F as FnOnce<(H, <Tail as HFoldRightOutput<FolderTail, Init>>::Output)>>::Output;
}

impl<F, H, Tail, Init> HFoldRightOutput<F, Init> for HCons<H, Tail> where
    Tail: HFoldRightOutput<F, Init>,
    F: Fn<(H, <Tail as HFoldRightOutput<F, Init>>::Output)>,
 {
    type Output = <F as FnOnce<(H, <Tail as HFoldRightOutput<F, Init>>::Output)>>::Output;
}

/// Folding a list from the right: the tail is folded first, and the folder
/// is applied to the head and the result, in that order.
///
/// The folder is either one function, applied at every element, or a list
/// of functions, one for each element; `Output` is the type of the result.
/// This trait is the implementation of the method `foldr`; import it only
/// to work with lists or folders of unknown type.
pub trait HFoldRightable<Folder, Init, Output>: Sized {
    /// Whether the folder accepts each argument it will be applied to,
    /// whatever the steps before return.
    spec fn foldr_requires(self, folder: Folder, init: Init) -> bool;

    /// Whether `out` is a result of folding the list from the right,
    /// starting from `init`.
    spec fn foldr_ensures(self, folder: Folder, init: Init, out: Output) -> bool;

    /// Folds the list from the right.
    fn foldr(self, folder: Folder, init: Init) -> (out: Output)
        requires
            self.foldr_requires(folder, init),
        ensures
            self.foldr_ensures(folder, init, out),
    ;
}

impl<F, Init> HFoldRightable<F, Init, Init> for HNil {
    open spec fn foldr_requires(self, folder: F, init: Init) -> bool {
        true
    }

    open spec fn foldr_ensures(self, folder: F, init: Init, out: Init) -> bool {
        out == init
    }

    fn foldr(self, _folder: F, init: Init) -> (out: Init) {
        init
    }
}

/// A list of functions, one for each element; the accumulator may change
/// its type at each step.
impl<F, R, FolderTail, H, Tail, Init> HFoldRightable<HCons<F, FolderTail>, Init, R> for HCons<
    H,
    Tail,
> where
    Tail: HFoldRightOutput<FolderTail, Init> + HFoldRightable<
        FolderTail,
        Init,
        <Tail as HFoldRightOutput<FolderTail, Init>>::Output,
    >,
    F: FnOnce(H, <Tail as HFoldRightOutput<FolderTail, Init>>::Output) -> R,
 {
    open spec fn foldr_requires(self, folder: HCons<F, FolderTail>, init: Init) -> bool {
        &&& self.tail.foldr_requires(folder.tail, init)
        &&& forall|t: <Tail as HFoldRightOutput<FolderTail, Init>>::Output|
            #[trigger] self.tail.foldr_ensures(folder.tail, init, t) ==> folder.head.requires(
                (self.head, t),
            )
    }

    open spec fn foldr_ensures(self, folder: HCons<F, FolderTail>, init: Init, out: R) -> bool {
        exists|t: <Tail as HFoldRightOutput<FolderTail, Init>>::Output|
            #[trigger] self.tail.foldr_ensures(folder.tail, init, t) && folder.head.ensures(
                (self.head, t),
                out,
            )
    }

    fn foldr(self, folder: HCons<F, FolderTail>, init: Init) -> (out: R) {
        let folded_tail = self.tail.foldr(folder.tail, init);
        (folder.head)(self.head, folded_tail)
    }
}

/// One function for all the elements.
impl<F, R, H, Tail, Init> HFoldRightable<F, Init, R> for HCons<H, Tail> where
    Tail: HFoldRightOutput<F, Init> + HFoldRightableOwned<
        F,
        Init,
        <Tail as HFoldRightOutput<F, Init>>::Output,
    >,
    F: Fn(H, <Tail as HFoldRightOutput<F, Init>>::Output) -> R,
 {
    open spec fn foldr_requires(self, f: F, init: Init) -> bool {
        &&& self.tail.foldr_requires(f, init)
        &&& forall|t: <Tail as HFoldRightOutput<F, Init>>::Output|
            #[trigger] self.tail.foldr_ensures(f, init, t) ==> f.requires((self.head, t))
    }

    open spec fn foldr_ensures(self, f: F, init: Init, out: R) -> bool {
        exists|t: <Tail as HFoldRightOutput<F, Init>>::Output|
            #[trigger] self.tail.foldr_ensures(f, init, t) && f.ensures((self.head, t), out)
    }

    fn foldr(self, f: F, init: Init) -> (out: R) {
        HFoldRightableOwned::real_foldr(self, f, init).0
    }
}

/// Folding from the right with a folder that has to be owned to be used.
///
/// A right fold hands the folder to the fold of the tail before it applies
/// it to the head, so the fold of the tail gives it back with its result.
pub trait HFoldRightableOwned<Folder, Init, Output>: HFoldRightable<Folder, Init, Output> {
    /// Folds the list from the right, and returns the folder with the
    /// result.
    fn real_foldr(self, folder: Folder, init: Init) -> (r: (Output, Folder))
        requires
            self.foldr_requires(folder, init),
        ensures
            self.foldr_ensures(folder, init, r.0),
            r.1 == folder,
    ;
}

impl<F, Init> HFoldRightableOwned<F, Init, Init> for HNil {
    fn real_foldr(self, f: F, i: Init) -> (r: (Init, F)) {
        (i, f)
    }
}

impl<F, R, H, Tail, Init> HFoldRightableOwned<F, Init, R> for HCons<H, Tail> where
    Tail: HFoldRightOutput<F, Init> + HFoldRightableOwned<
        F,
        Init,
        <Tail as HFoldRightOutput<F, Init>>::Output,
    >,
    F: Fn(H, <Tail as HFoldRightOutput<F, Init>>::Output) -> R,
 {
    fn real_foldr(self, folder: F, init: Init) -> (r: (R, F)) {
        let (folded_tail, folder) = self.tail.real_foldr(folder, init);
        (folder(self.head, folded_tail), folder)
    }
}

/// What folding a non-empty list from the right with one function asks and
/// gives, stated for any function type, the types of closures and of named
/// functions included.
pub proof fn lemma_foldr_with_fn<F, R, H, Tail, Init, TailOutput>(
    list: HCons<H, Tail>,
    f: F,
    init: Init,
    out: R,
) where
    Tail: HFoldRightOutput<F, Init, Output = TailOutput> + HFoldRightableOwned<F, Init, TailOutput>,
    F: Fn(H, TailOutput) -> R,

    ensures
        list.foldr_requires(f, init) <==> list.tail.foldr_requires(f, init) && forall|
            t: TailOutput,
        |
            #[trigger] list.tail.foldr_ensures(f, init, t) ==> f.requires((list.head, t)),
        list.foldr_ensures(f, init, out) <==> exists|t: TailOutput|
            #[trigger] list.tail.foldr_ensures(f, init, t) && f.ensures((list.head, t), out),
{
}

/// What folding a non-empty list from the right with a list of functions
/// asks and gives, stated for any function type, the types of closures and
/// of named functions included.
pub proof fn lemma_foldr_with_list<F, R, FolderTail, H, Tail, Init, TailOutput>(
    list: HCons<H, Tail>,
    folder: HCons<F, FolderTail>,
    init: Init,
    out: R,
) where
    Tail: HFoldRightOutput<FolderTail, Init, Output = TailOutput> + HFoldRightable<
        FolderTail,
        Init,
        TailOutput,
    >,
    F: FnOnce(H, TailOutput) -> R,

    ensures
        list.foldr_requires(folder, init) <==> list.tail.foldr_requires(folder.tail, init)
            && forall|t: TailOutput|
            #[trigger] list.tail.foldr_ensures(folder.tail, init, t) ==> folder.head.requires(
                (list.head, t),
            ),
        list.foldr_ensures(folder, init, out) <==> exists|t: TailOutput|
            #[trigger] list.tail.foldr_ensures(folder.tail, init, t) && folder.head.ensures(
                (list.head, t),
                out,
            ),
{
}

/// Lists whose elements all have the type `H`.
pub trait HSeq<H>: Sized {
    /// The elements of the list, in order.
    spec fn to_seq(self) -> Seq<H>;

    /// Moves the elements of the list into a vector, in order.
    fn into_vec(self) -> (v: Vec<H>)
        ensures
            v@ == self.to_seq(),
    ;
}

impl<H> HSeq<H> for HNil {
    open spec fn to_seq(self) -> Seq<H> {
        Seq::empty()
    }

    fn into_vec(self) -> (v: Vec<H>) {
        Vec::with_capacity(0)
    }
}

impl<H, Tail> HSeq<H> for HCons<H, Tail> where Tail: HSeq<H> + HList {
    open spec fn to_seq(self) -> Seq<H> {
        seq![self.head] + self.tail.to_seq()
    }

    fn into_vec(self) -> (v: Vec<H>) {
        let h = self.head;
        let t = self.tail;
        let mut v = Vec::with_capacity(<Self as HList>::LEN);
        v.push(h);
        let mut t_vec: Vec<H> = t.into_vec();
        v.append(&mut t_vec);
        v
    }
}

/// Whether the vector `v` holds exactly the elements `s`.
pub open spec fn holds_seq<H>(v: Vec<H>, s: Seq<H>) -> bool {
    v@ == s
}

/// The conversion of a list into a vector of its elements. What comes out
/// is stated by `into` itself: vectors of equal contents need not be equal,
/// so no single vector is named as the result.
impl<H, Tail> Into<Vec<H>> for HCons<H, Tail> where Tail: HSeq<H> + HList {
    fn into(self) -> (v: Vec<H>)
        ensures
            holds_seq::<H>(v, self.to_seq()),
    {
        self.into_vec()
    }
}

impl<H, Tail> vstd::std_specs::convert::IntoSpecImpl<Vec<H>> for HCons<H, Tail> where Tail: HSeq<H> + HList {
    open spec fn obeys_into_spec() -> bool {
        false
    }

    open spec fn into_spec(self) -> Vec<H> {
        arbitrary()
    }
}

impl<T> Into<Vec<T>> for HNil {
    fn into(self) -> (v: Vec<T>)
        ensures
            holds_seq::<T>(v, Seq::empty()),
    {
        Vec::with_capacity(0)
    }
}

impl<T> vstd::std_specs::convert::IntoSpecImpl<Vec<T>> for HNil {
    open spec fn obeys_into_spec() -> bool {
        false
    }

    open spec fn into_spec(self) -> Vec<T> {
        arbitrary()
    }
}

impl Default for HNil {
    fn default() -> (r: Self)
        ensures
            r == HNil,
    {
        HNil
    }
}

/// The default list holds a default value at each position.
impl<T: Default, Tail: Default + HList> Default for HCons<T, Tail> {
    fn default() -> (r: Self)
        ensures
            call_ensures(T::default, (), r.head),
            call_ensures(Tail::default, (), r.tail),
    {
        h_cons(T::default(), Tail::default())
    }
}

/// Indexed conversion of `T` into `Self`: a generalisation of `From` in
/// which the index `I` says where the part goes, and the other positions
/// are filled with default values.
///
/// `LiftFrom` is the reciprocal of [`LiftInto`].
pub trait LiftFrom<T, I>: Sized {
    /// Whether the part can be lifted.
    spec fn liftable(part: T) -> bool;

    /// Whether `out` is the part put at the index, with default values at
    /// the other positions.
    spec fn lifts(part: T, out: Self) -> bool;

    /// Performs the indexed conversion.
    fn lift_from(part: T) -> (out: Self)
        requires
            Self::liftable(part),
        ensures
            Self::lifts(part, out),
    ;
}

/// Free function version of [`LiftFrom::lift_from`].
pub fn lift_from<I, T, PF: LiftFrom<T, I>>(part: T) -> (out: PF)
    requires
        PF::liftable(part),
    ensures
        PF::lifts(part, out),
{
    PF::lift_from(part)
}

/// Indexed conversion that consumes `self` and produces a `T`, filling in
/// the positions that `self` does not provide.
///
/// `LiftInto` is the reciprocal of [`LiftFrom`].
pub trait LiftInto<T, I>: Sized {
    /// Whether `self` can be lifted.
    spec fn can_lift_into(self) -> bool;

    /// Whether `out` is what `self` lifts into.
    spec fn lifts_into(self, out: T) -> bool;

    /// Performs the indexed conversion.
    fn lift_into(self) -> (out: T)
        requires
            self.can_lift_into(),
        ensures
            self.lifts_into(out),
    ;
}

impl<T, U, I> LiftInto<U, I> for T where U: LiftFrom<T, I> {
    open spec fn can_lift_into(self) -> bool {
        U::liftable(self)
    }

    open spec fn lifts_into(self, out: U) -> bool {
        U::lifts(self, out)
    }

    fn lift_into(self) -> (out: U) {
        LiftFrom::lift_from(self)
    }
}

/// The part becomes the head; the tail is its default.
impl<T, Tail> LiftFrom<T, Here> for HCons<T, Tail> where Tail: Default + HList {
    open spec fn liftable(part: T) -> bool {
        true
    }

    open spec fn lifts(part: T, out: Self) -> bool {
        &&& out.head == part
        &&& call_ensures(Tail::default, (), out.tail)
    }

    fn lift_from(part: T) -> (out: Self) {
        h_cons(part, Tail::default())
    }
}

/// The part goes into the tail; the head is its default.
impl<Head, Tail, ValAtIx, TailIx> LiftFrom<ValAtIx, There<TailIx>> for HCons<Head, Tail> where
    Head: Default,
    Tail: HList + LiftFrom<ValAtIx, TailIx>,
 {
    open spec fn liftable(part: ValAtIx) -> bool {
        Tail::liftable(part)
    }

    open spec fn lifts(part: ValAtIx, out: Self) -> bool {
        &&& call_ensures(Head::default, (), out.head)
        &&& Tail::lifts(part, out.tail)
    }

    fn lift_from(part: ValAtIx) -> (out: Self) {
        h_cons(Head::default(), Tail::lift_from(part))
    }
}

/// The part is a prefix; the default of `Suffix` follows it.
impl<Prefix, Suffix> LiftFrom<Prefix, Suffixed<Suffix>> for <Prefix as Add<Suffix>>::Output where
    Prefix: HList + Add<Suffix>,
    Suffix: Default,
 {
    open spec fn liftable(part: Prefix) -> bool {
        forall|suffix: Suffix| #[trigger]
            call_ensures(Suffix::default, (), suffix) ==> part.add_req(suffix)
    }

    open spec fn lifts(part: Prefix, out: Self) -> bool {
        exists|suffix: Suffix| #[trigger]
            call_ensures(Suffix::default, (), suffix) && (Prefix::obeys_add_spec() ==> out
                == part.add_spec(suffix))
    }

    fn lift_from(part: Prefix) -> (out: Self) {
        part + Suffix::default()
    }
}

} // verus!
