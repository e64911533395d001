//! A stack of `i32` values, held as a chain of boxed nodes.
use vstd::prelude::*;
use crate::model::{after_pop, popped};

verus! {

/// A stack of `i32`; the most recently pushed value is at the front.
pub struct List {
    root: Link,
}

/// A link to the next node, or the end of the chain.
enum Link {
    Empty,
    PointerTo(Box<Node>),
}

/// One heap cell of the chain.
struct Node {
    elem: i32,
    next: Link,
}

impl Link {
    /// The values held by the chain, from this link to its end.
    spec fn view(self) -> Seq<i32>
        decreases self,
    {
        match self {
            Link::Empty => Seq::empty(),
            Link::PointerTo(node) => seq![node.elem] + node.next.view(),
        }
    }

    /// Moves the link out, leaving the end of the chain in its place.
    fn take(&mut self) -> (r: Link)
        ensures
            r == *old(self),
            *final(self) == Link::Empty,
    {
        let mut r = Link::Empty;
        std::mem::swap(self, &mut r);
        r
    }
}

impl View for List {
    type V = Seq<i32>;

    /// The values of the stack, from the top (index 0) down.
    closed spec fn view(&self) -> Seq<i32> {
        self.root.view()
    }
}

impl List {
    /// An empty stack.
    pub fn new() -> (r: List)
        ensures
            r@ == Seq::<i32>::empty(),
    {
        List { root: Link::Empty }
    }

    /// Puts `elem` on top of the stack.
    pub fn push(&mut self, elem: i32)
        ensures
            final(self)@ == seq![elem] + old(self)@,
    {
        let next = self.root.take();
        let new_node = Box::new(Node { elem, next });
        self.root = Link::PointerTo(new_node);
    }

    /// Removes the top value and returns it, or `None` when the stack is empty.
    pub fn pop(&mut self) -> (r: Option<i32>)
        ensures
            r == popped(old(self)@),
            final(self)@ == after_pop(old(self)@),
    {
        match self.root.take() {
            Link::Empty => None,
            Link::PointerTo(node) => {
                let node = *node;
                self.root = node.next;
                assert(old(self)@.drop_first() =~= self@);
                Some(node.elem)
            },
        }
    }
}

impl Drop for List {
    /// Frees the chain one node at a time: each node's link is cut before the
    /// node is freed, so a long stack does not recurse once per node.
    /// The body calls only std functions (`swap` in place of `Link::take`):
    /// Verus does not yet accept a `drop` that calls into this crate.
    fn drop(&mut self)
        ensures
            final(self)@ == Seq::<i32>::empty(),
        opens_invariants none
        no_unwind
    {
        let mut cur = Link::Empty;
        std::mem::swap(&mut self.root, &mut cur);
        loop
            decreases cur.view().len(),
        {
            match cur {
                Link::Empty => break,
                Link::PointerTo(mut node) => {
                    let mut next = Link::Empty;
                    std::mem::swap(&mut node.next, &mut next);
                    cur = next;
                },
            }
        }
    }
}

} // verus!
