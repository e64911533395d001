//! A generic stack held as a chain of boxed nodes, with a consuming
//! iterator and iterators over shared and exclusive references.
use vstd::prelude::*;
use crate::model::{after_pop, popped};

verus! {

/// A stack of `T`; the most recently pushed value is at the front.
pub struct List<T> {
    root: Link<T>,
}

/// A link to the next node; `None` ends the chain.
type Link<T> = Option<Box<Node<T>>>;

/// One heap cell of the chain.
pub struct Node<T> {
    elem: T,
    next: Link<T>,
}

/// The values held by the chain that starts at `link`, front first.
pub closed spec fn link_values<T>(link: Link<T>) -> Seq<T>
    decreases link,
{
    match link {
        None => Seq::empty(),
        Some(node) => seq![node.elem] + link_values(node.next),
    }
}

/// The values held by the chain that starts at `node`, front first.
pub closed spec fn node_values<T>(node: Node<T>) -> Seq<T> {
    seq![node.elem] + link_values(node.next)
}

impl<T> View for List<T> {
    type V = Seq<T>;

    /// The values of the stack, from the top (index 0) down.
    closed spec fn view(&self) -> Seq<T> {
        link_values(self.root)
    }
}

impl<T> List<T> {
    /// An empty stack.
    pub fn new() -> (r: List<T>)
        ensures
            r@ == Seq::<T>::empty(),
    {
        List { root: None }
    }

    /// Puts `elem` on top of the stack.
    pub fn push(&mut self, elem: T)
        ensures
            final(self)@ == seq![elem] + old(self)@,
    {
        let new_node = Box::new(Node { elem, next: self.root.take() });
        self.root = Some(new_node);
    }

    /// Removes the top value and returns it, or `None` when the stack is empty.
    pub fn pop(&mut self) -> (r: Option<T>)
        ensures
            r == popped(old(self)@),
            final(self)@ == after_pop(old(self)@),
    {
        match self.root.take() {
            None => None,
            Some(node) => {
                let node = *node;
                self.root = node.next;
                assert(old(self)@.drop_first() =~= self@);
                Some(node.elem)
            },
        }
    }

    /// The top value, left in place, or `None` when the stack is empty.
    pub fn peek(&self) -> (r: Option<&T>)
        ensures
            self@.len() == 0 ==> r == None::<&T>,
            self@.len() > 0 ==> r == Some(&self@[0]),
    {
        match &self.root {
            None => None,
            Some(node) => Some(&node.elem),
        }
    }

    /// Exclusive access to the top value in place, or `None` when the stack
    /// is empty. What is written through the reference is the new top value.
    pub fn peek_mut(&mut self) -> (r: Option<&mut T>)
        ensures
            old(self)@.len() == 0 ==> r == None::<&mut T> && final(self)@ == old(self)@,
            old(self)@.len() > 0 ==> r is Some && *r.unwrap() == old(self)@[0] && final(self)@
                == old(self)@.update(0, *final(r.unwrap())),
    {
        match &mut self.root {
            None => None,
            Some(node) => Some(&mut node.elem),
        }
    }
}

impl<T> Drop for List<T> {
    /// Frees the chain one node at a time: each node's link is cut before the
    /// node is freed, so a long stack does not recurse once per node.
    /// The body calls only std functions: Verus does not yet accept a
    /// `drop` that calls into this crate.
    fn drop(&mut self)
        ensures
            final(self)@ == Seq::<T>::empty(),
        opens_invariants none
        no_unwind
    {
        let mut cur: Link<T> = None;
        std::mem::swap(&mut self.root, &mut cur);
        loop
            decreases link_values(cur).len(),
        {
            match cur {
                None => break,
                Some(mut node) => {
                    let mut next: Link<T> = None;
                    std::mem::swap(&mut node.next, &mut next);
                    cur = next;
                },
            }
        }
    }
}

/// Hands out the values of a stack by value, top first.
pub struct IntoIter<T>(List<T>);

impl<T> View for IntoIter<T> {
    type V = Seq<T>;

    /// The values still to come, next first.
    closed spec fn view(&self) -> Seq<T> {
        self.0@
    }
}

impl<T> List<T> {
    /// Turns the stack into an iterator over its values, top first.
    pub fn into_iter(self) -> (r: IntoIter<T>)
        ensures
            r@ == self@,
    {
        IntoIter(self)
    }
}

impl<T> IntoIter<T> {
    /// The next value, taken off the stack, or `None` once it is empty.
    pub fn next(&mut self) -> (r: Option<T>)
        ensures
            r == popped(old(self)@),
            final(self)@ == after_pop(old(self)@),
    {
        self.0.pop()
    }
}

/// Walks a stack by shared reference, top first.
pub struct Iter<'a, T> {
    next: Option<&'a Node<T>>,
}

impl<'a, T> View for Iter<'a, T> {
    type V = Seq<T>;

    /// The values still to come, next first.
    closed spec fn view(&self) -> Seq<T> {
        match self.next {
            None => Seq::empty(),
            Some(node) => node_values(*node),
        }
    }
}

impl<T> List<T> {
    /// An iterator over references to the values, top first.
    pub fn iter<'a>(&'a self) -> (r: Iter<'a, T>)
        ensures
            r@ == self@,
    {
        match &self.root {
            None => Iter { next: None },
            Some(node) => Iter { next: Some(&**node) },
        }
    }
}

impl<'a, T> Iter<'a, T> {
    /// A reference to the next value, or `None` at the end of the stack.
    pub fn next(&mut self) -> (r: Option<&'a T>)
        ensures
            old(self)@.len() == 0 ==> r == None::<&T> && final(self)@ == old(self)@,
            old(self)@.len() > 0 ==> r == Some(&old(self)@[0]) && final(self)@
                == old(self)@.drop_first(),
    {
        match self.next {
            None => None,
            Some(node) => {
                self.next = match &node.next {
                    None => None,
                    Some(n) => Some(&**n),
                };
                Some(&node.elem)
            },
        }
    }
}

/// Walks a stack by exclusive reference, top first. Each value is handed out
/// once, and what is written through it is what the stack holds afterwards.
pub struct IterMut<'a, T> {
    next: Option<&'a mut Node<T>>,
}

impl<'a, T> View for IterMut<'a, T> {
    type V = Seq<T>;

    /// The values still to come, next first, as they stand now.
    closed spec fn view(&self) -> Seq<T> {
        match self.next {
            None => Seq::empty(),
            Some(node) => node_values(*node),
        }
    }
}

impl<'a, T> IterMut<'a, T> {
    /// The node that comes next, if any.
    pub closed spec fn cursor(self) -> Option<&'a mut Node<T>> {
        self.next
    }
}

/// Once an exclusive iterator is done with (dropped, whether or not it was
/// advanced to the end), the chain under its cursor ends holding exactly the
/// values it holds now: nothing more is written through it.
pub proof fn lemma_iter_mut_resolved<'a, T>(it: IterMut<'a, T>)
    requires
        has_resolved(it),
    ensures
        it.cursor() is Some ==> node_values(*final(it.cursor().unwrap())) == it@,
{
    assert(has_resolved(it.next));
    if it.next is Some {
        assert(has_resolved(it.next.unwrap()));
    }
}

impl<T> List<T> {
    /// An iterator over exclusive references to the values, top first.
    /// Once the borrow ends, the stack holds what the chain under the
    /// iterator's cursor holds at that point.
    pub fn iter_mut<'a>(&'a mut self) -> (r: IterMut<'a, T>)
        ensures
            r@ == old(self)@,
            r.cursor() is None <==> r@.len() == 0,
            r.cursor() is None ==> final(self)@ == Seq::<T>::empty(),
            r.cursor() is Some ==> final(self)@ == node_values(*final(r.cursor().unwrap())),
    {
        match &mut self.root {
            None => IterMut { next: None },
            Some(node) => IterMut { next: Some(&mut **node) },
        }
    }
}

impl<'a, T> IterMut<'a, T> {
    /// A reference to the next value, or `None` at the end of the stack.
    /// What the chain under the old cursor finally holds is the value last
    /// written through `r`, followed by what the chain under the new cursor
    /// finally holds.
    pub fn next(&mut self) -> (r: Option<&'a mut T>)
        ensures
            old(self)@.len() == 0 ==> r is None && final(self)@ == old(self)@,
            final(self).cursor() is None <==> final(self)@.len() == 0,
            old(self)@.len() > 0 ==> r is Some && *r.unwrap() == old(self)@[0] && final(self)@
                == old(self)@.drop_first(),
            old(self)@.len() > 0 && final(self).cursor() is None ==>
                node_values(*final(old(self).cursor().unwrap())) == seq![*final(r.unwrap())],
            old(self)@.len() > 0 && final(self).cursor() is Some ==>
                node_values(*final(old(self).cursor().unwrap())) == seq![*final(r.unwrap())]
                    + node_values(*final(final(self).cursor().unwrap())),
    {
        match self.next.take() {
            None => None,
            Some(node) => {
                self.next = match &mut node.next {
                    None => None,
                    Some(n) => Some(&mut **n),
                };
                Some(&mut node.elem)
            },
        }
    }
}

} // verus!
