use std::rc::Rc;
use vstd::prelude::*;

verus! {

/// An immutable binary tree. Nodes sit behind shared handles, so that trees
/// built from one another reuse every subtree that did not change.
pub enum Tree<T> {
    Empty,
    Node(Rc<TreeBox<T>>),
}

/// The contents of one node: its value and its two subtrees.
pub struct TreeBox<T> {
    pub data: Rc<T>,
    pub left: Tree<T>,
    pub right: Tree<T>,
}

impl<T> Tree<T> {
    /// The node with value `data` over the subtrees `left` and `right`.
    pub open spec fn node(data: T, left: Tree<T>, right: Tree<T>) -> Tree<T> {
        Tree::Node(Rc::new(TreeBox { data: Rc::new(data), left, right }))
    }

    /// The tree with `data` in place of the value at its root: the subtrees of
    /// a node are kept, an empty tree becomes a leaf.
    pub open spec fn with_value(self, data: T) -> Tree<T> {
        match self {
            Tree::Empty => Tree::node(data, Tree::Empty, Tree::Empty),
            Tree::Node(b) => Tree::node(data, b.left, b.right),
        }
    }

    pub fn is_empty(&self) -> (r: bool)
        ensures
            r == self is Empty,
    {
        match self {
            Tree::Empty => true,
            Tree::Node(_) => false,
        }
    }

    pub fn new(data: Rc<T>, left: Tree<T>, right: Tree<T>) -> (r: Tree<T>)
        ensures
            r == Tree::node(*data, left, right),
    {
        Tree::Node(Rc::new(TreeBox { data, left, right }))
    }
}

impl<T> Clone for Tree<T> {
    /// Another handle on the same nodes; nothing is copied.
    fn clone(&self) -> (r: Self)
        ensures
            r == *self,
    {
        match self {
            Tree::Empty => Tree::Empty,
            Tree::Node(b) => Tree::Node(Rc::clone(b)),
        }
    }
}

impl<T> Default for Tree<T> {
    fn default() -> (r: Self)
        ensures
            r == Tree::<T>::Empty,
    {
        Tree::Empty
    }
}

} // verus!
