use std::rc::Rc;
use vstd::prelude::*;

use crate::tree::Tree;

verus! {

/// Which side of a rebuilt ancestor the recorded subtree goes back to.
/// `Left`: the recorded subtree is the left child and the hole is on the
/// right. `Right`: the mirror.
#[derive(Clone, Copy)]
pub enum ContextType {
    Left,
    Right,
}

/// One step of a path away from the root: the ancestor's value, its child
/// that was not descended into, and the path above the ancestor.
pub struct ContextBox<T> {
    pub ty: ContextType,
    pub data: Rc<T>,
    pub context: Context<T>,
    pub tree: Tree<T>,
}

/// The path from a focused subtree back up to the root, nearest step first.
pub enum Context<T> {
    Root,
    Frame(Rc<ContextBox<T>>),
}

impl<T> ContextBox<T> {
    /// The ancestor this step stands for, with `focus` put back in the hole.
    pub open spec fn fill(self, focus: Tree<T>) -> Tree<T> {
        match self.ty {
            ContextType::Left => Tree::node(*self.data, self.tree, focus),
            ContextType::Right => Tree::node(*self.data, focus, self.tree),
        }
    }
}

impl<T> Context<T> {
    /// The frame of kind `ty` over the ancestor value `data`, the path `context`
    /// above it and its other child `tree`.
    pub open spec fn frame(ty: ContextType, data: T, context: Context<T>, tree: Tree<T>) -> Context<T> {
        Context::Frame(Rc::new(ContextBox { ty, data: Rc::new(data), context, tree }))
    }

    /// The whole tree rebuilt from this path with `focus` in the hole.
    pub open spec fn plug(self, focus: Tree<T>) -> Tree<T>
        decreases self,
    {
        match self {
            Context::Root => focus,
            Context::Frame(b) => b.context.plug(b.fill(focus)),
        }
    }

    pub fn new(ty: ContextType, data: Rc<T>, context: Self, tree: Tree<T>) -> (r: Self)
        ensures
            r == Context::frame(ty, *data, context, tree),
    {
        Context::Frame(Rc::new(ContextBox { ty, data, context, tree }))
    }

    pub fn left(data: Rc<T>, context: Self, tree: Tree<T>) -> (r: Self)
        ensures
            r == Context::frame(ContextType::Left, *data, context, tree),
    {
        Self::new(ContextType::Left, data, context, tree)
    }

    pub fn right(data: Rc<T>, context: Self, tree: Tree<T>) -> (r: Self)
        ensures
            r == Context::frame(ContextType::Right, *data, context, tree),
    {
        Self::new(ContextType::Right, data, context, tree)
    }
}

impl<T> Clone for Context<T> {
    /// Another handle on the same frames; nothing is copied.
    fn clone(&self) -> (r: Self)
        ensures
            r == *self,
    {
        match self {
            Context::Root => Context::Root,
            Context::Frame(b) => Context::Frame(Rc::clone(b)),
        }
    }
}

impl<T> Default for Context<T> {
    fn default() -> (r: Self)
        ensures
            r == Context::<T>::Root,
    {
        Context::Root
    }
}

} // verus!
