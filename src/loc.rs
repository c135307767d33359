use std::rc::Rc;
use vstd::prelude::*;

use crate::context::{Context, ContextType};
use crate::tree::Tree;

verus! {

/// A cursor over a tree: the subtree in focus and the path that rebuilds the
/// whole tree around it.
pub struct Loc<T> {
    pub context: Context<T>,
    pub tree: Tree<T>,
}

impl<T> Loc<T> {
    /// The whole tree this cursor stands in.
    pub open spec fn whole(self) -> Tree<T> {
        self.context.plug(self.tree)
    }

    /// The cursor with the value at the focus replaced by `data`.
    pub open spec fn set_value(self, data: T) -> Loc<T> {
        Loc { context: self.context, tree: self.tree.with_value(data) }
    }

    /// The cursor moved to the left child of the focus; `None` on an empty
    /// focus.
    pub open spec fn descend_left(self) -> Option<Loc<T>> {
        match self.tree {
            Tree::Empty => None,
            Tree::Node(b) => Some(
                Loc {
                    context: Context::frame(ContextType::Right, *b.data, self.context, b.right),
                    tree: b.left,
                },
            ),
        }
    }

    /// The cursor moved to the right child of the focus; `None` on an empty
    /// focus.
    pub open spec fn descend_right(self) -> Option<Loc<T>> {
        match self.tree {
            Tree::Empty => None,
            Tree::Node(b) => Some(
                Loc {
                    context: Context::frame(ContextType::Left, *b.data, self.context, b.left),
                    tree: b.right,
                },
            ),
        }
    }

    /// The cursor moved to the parent of the focus, rebuilt around the focus;
    /// `None` at the root.
    pub open spec fn ascend(self) -> Option<Loc<T>> {
        match self.context {
            Context::Root => None,
            Context::Frame(f) => Some(Loc { context: f.context, tree: f.fill(self.tree) }),
        }
    }

    pub fn new(context: Context<T>, tree: Tree<T>) -> (r: Self)
        ensures
            r == (Loc { context, tree }),
    {
        Loc { context, tree }
    }

    /// Replaces the value at the focus, keeping its subtrees and the path.
    pub fn set(&self, data: T) -> (r: Self)
        ensures
            r == self.set_value(data),
            r.context == self.context,
    {
        let tree = match &self.tree {
            Tree::Empty => Tree::new(Rc::new(data), Tree::Empty, Tree::Empty),
            Tree::Node(b) => Tree::new(Rc::new(data), b.left.clone(), b.right.clone()),
        };
        Self::new(self.context.clone(), tree)
    }

    /// Moves to the parent of the focus; `None` when the path is at the root.
    pub fn up(&self) -> (r: Option<Self>)
        ensures
            r == self.ascend(),
            r is None <==> self.context is Root,
            r is Some ==> r->0.whole() == self.whole(),
    {
        match &self.context {
            Context::Root => None,
            Context::Frame(f) => {
                let (left, right) = match f.ty {
                    ContextType::Left => (f.tree.clone(), self.tree.clone()),
                    ContextType::Right => (self.tree.clone(), f.tree.clone()),
                };
                let tree = Tree::new(Rc::clone(&f.data), left, right);
                Some(Self::new(f.context.clone(), tree))
            },
        }
    }

    /// Moves to the left child of the focus; `None` when the focus is empty.
    pub fn left(&self) -> (r: Option<Self>)
        ensures
            r == self.descend_left(),
            r is None <==> self.tree is Empty,
            r is Some ==> r->0.whole() == self.whole(),
    {
        match &self.tree {
            Tree::Empty => None,
            Tree::Node(b) => {
                let context = Context::right(Rc::clone(&b.data), self.context.clone(), b.right.clone());
                Some(Self::new(context, b.left.clone()))
            },
        }
    }

    /// Moves to the right child of the focus; `None` when the focus is empty.
    pub fn right(&self) -> (r: Option<Self>)
        ensures
            r == self.descend_right(),
            r is None <==> self.tree is Empty,
            r is Some ==> r->0.whole() == self.whole(),
    {
        match &self.tree {
            Tree::Empty => None,
            Tree::Node(b) => {
                let context = Context::left(Rc::clone(&b.data), self.context.clone(), b.left.clone());
                Some(Self::new(context, b.right.clone()))
            },
        }
    }
}

impl<T> Clone for Loc<T> {
    fn clone(&self) -> (r: Self)
        ensures
            r == *self,
    {
        Loc { context: self.context.clone(), tree: self.tree.clone() }
    }
}

impl<T> Default for Loc<T> {
    /// The cursor over the empty tree, at its root.
    fn default() -> (r: Self)
        ensures
            r == (Loc::<T> { context: Context::Root, tree: Tree::Empty }),
    {
        Loc { context: Context::Root, tree: Tree::Empty }
    }
}

/// Descending into either child and ascending again gives back the cursor one
/// started from: the same path and the same focus.
pub proof fn lemma_round_trip<T>(loc: Loc<T>)
    requires
        loc.tree is Node,
    ensures
        loc.descend_left() is Some,
        loc.descend_left()->0.ascend() == Some(loc),
        loc.descend_right() is Some,
        loc.descend_right()->0.ascend() == Some(loc),
{
}

/// Setting a value never touches the path. Setting it after a descent and
/// ascending again rebuilds the node with only the child that was descended
/// into changed: the other child, the node's value and the path are the same.
pub proof fn lemma_edit_locality<T>(loc: Loc<T>, data: T)
    requires
        loc.tree is Node,
    ensures
        loc.set_value(data).context == loc.context,
        loc.descend_left()->0.set_value(data).ascend() == Some(
            Loc {
                context: loc.context,
                tree: Tree::node(*loc.tree->0.data, loc.tree->0.left.with_value(data), loc.tree->0.right),
            },
        ),
        loc.descend_right()->0.set_value(data).ascend() == Some(
            Loc {
                context: loc.context,
                tree: Tree::node(*loc.tree->0.data, loc.tree->0.left, loc.tree->0.right.with_value(data)),
            },
        ),
{
}

} // verus!
