//! Heterogeneous binary trees: trees whose shape and element types are
//! part of their type.

use vstd::prelude::*;

verus! {

/// Behaviour common to all heterogeneous binary trees.
pub trait HTree: Sized {
    /// Whether the tree is a leaf: a fork whose two subtrees are empty.
    const LEAF: bool;

    /// Whether the tree is full: a leaf, or a fork whose two subtrees are
    /// full.
    const FULL: bool;

    /// Whether the tree is perfect: full, with all its leaves at one
    /// depth.
    const PERFECT: bool;

    /// Whether the tree is balanced.
    const BALANCED: bool;
}

/// The empty tree, which ends a heterogeneous binary tree.
#[derive(PartialEq, Debug, Eq, Clone, Copy, PartialOrd, Ord, Hash)]
pub struct HTip;

/// A tree that holds a value and two subtrees, which may be empty.
#[derive(PartialEq, Debug, Eq, Copy, PartialOrd, Ord, Hash)]
pub struct HFork<T, L, R> {
    pub value: T,
    pub left: L,
    pub right: R,
}

/// A tree is cloned part by part.
impl<T: Clone, L: Clone, R: Clone> Clone for HFork<T, L, R> {
    fn clone(&self) -> (tree: Self)
        ensures
            cloned(self.value, tree.value),
            cloned(self.left, tree.left),
            cloned(self.right, tree.right),
    {
        HFork { value: self.value.clone(), left: self.left.clone(), right: self.right.clone() }
    }
}

/// A fork without children.
pub type HLeaf<T> = HFork<T, HTip, HTip>;

} // verus!
