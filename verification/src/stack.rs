use vstd::prelude::*;

use crate::{popped, pushed, top};

verus! {

/// A singly-linked stack. The `head` link owns the whole chain; the view
/// lists the elements from the head (most recently pushed) to the tail.
pub struct List<T> {
    head: Link<T>,
}

type Link<T> = Option<Box<Node<T>>>;

/// One cell of the chain: it owns its element and, through `next`, the
/// whole rest of the chain. The type is public only so that the borrowing
/// iterators can speak about the node their cursor rests on; its fields
/// stay private.
pub struct Node<T> {
    elem: T,
    next: Link<T>,
}

impl<T> Node<T> {
    /// The elements from this node to the end of the chain.
    pub closed spec fn view(&self) -> Seq<T> {
        seq![self.elem] + link_view(self.next)
    }
}

/// The elements reachable from a link, head first.
spec fn link_view<T>(l: Link<T>) -> Seq<T>
    decreases l,
{
    match l {
        None => Seq::empty(),
        Some(node) => seq![node.elem] + link_view(node.next),
    }
}

impl<T> List<T> {
    pub closed spec fn view(&self) -> Seq<T> {
        link_view(self.head)
    }

    /// An empty stack.
    pub fn new() -> (r: Self)
        ensures
            r@ == Seq::<T>::empty(),
    {
        List { head: None }
    }

    /// Puts `elem` on top of the stack: the new node takes over the old
    /// chain, and the head is swapped to the new node.
    pub fn push(&mut self, elem: T)
        ensures
            final(self)@ == pushed(old(self)@, elem),
    {
        let new_node = Box::new(Node { elem, next: self.head.take() });
        self.head = Some(new_node);
    }

    /// Removes and returns the top element; `None` exactly when the stack
    /// is empty, which leaves it unchanged.
    pub fn pop(&mut self) -> (r: Option<T>)
        ensures
            old(self)@.len() == 0 ==> r is None && final(self)@ == old(self)@,
            old(self)@.len() > 0 ==> r == Some(top(old(self)@))
                && final(self)@ == popped(old(self)@),
    {
        match self.head.take() {
            None => None,
            Some(node) => {
                let node = *node;
                self.head = node.next;
                Some(node.elem)
            }
        }
    }

    /// A read-only reference to the top element; `None` exactly when the
    /// stack is empty. Takes `&self`, so the stack cannot change.
    pub fn peek(&self) -> (r: Option<&T>)
        ensures
            self@.len() == 0 ==> r is None,
            self@.len() > 0 ==> r is Some && *r.unwrap() == top(self@),
    {
        match &self.head {
            None => None,
            Some(node) => Some(&node.elem),
        }
    }

    /// An exclusive reference to the top element; `None` exactly when the
    /// stack is empty. Whatever the caller writes through the reference
    /// becomes the new top; the rest of the stack is untouched.
    pub fn peek_mut(&mut self) -> (r: Option<&mut T>)
        ensures
            old(self)@.len() == 0 ==> r is None && final(self)@ == old(self)@,
            old(self)@.len() > 0 ==> r is Some && *r.unwrap() == top(old(self)@)
                && final(self)@ == old(self)@.update(0, *final(r.unwrap())),
    {
        match &mut self.head {
            None => None,
            Some(node) => Some(&mut node.elem),
        }
    }

    /// Consumes the stack, handing it to an owning iterator that will
    /// yield its elements from the top down.
    pub fn into_iter(self) -> (it: IntoIter<T>)
        ensures
            it@ == self@,
    {
        IntoIter(self)
    }

    /// An exclusive cursor over the stack, from the top down. While the
    /// iterator or any reference it yielded is live, the stack cannot be
    /// touched; once they are gone, the stack holds whatever chain the
    /// cursor settles on, so writes through yielded references land in
    /// the stack's real storage.
    pub fn iter_mut(&mut self) -> (it: IterMut<'_, T>)
        ensures
            it@ == old(self)@,
            final(self)@ == (match it.cursor() {
                None => Seq::<T>::empty(),
                Some(node) => (*final(node))@,
            }),
    {
        IterMut {
            next: match &mut self.head {
                None => None,
                Some(node) => Some(&mut **node),
            },
        }
    }

    /// A read-only cursor over the stack, from the top down. The stack is
    /// left exactly as it was.
    pub fn iter(&self) -> (it: Iter<'_, T>)
        ensures
            it@ == self@,
    {
        Iter {
            next: match &self.head {
                None => None,
                Some(node) => Some(&**node),
            },
        }
    }
}

impl<T> Drop for List<T> {
    /// Tears the chain down iteratively: each turn detaches one node,
    /// leaving its `next` empty so that dropping the node itself cannot
    /// recurse down the rest of the chain.
    fn drop(&mut self)
        opens_invariants none
        no_unwind
    {
        let mut cur: Link<T> = None;
        core::mem::swap(&mut self.head, &mut cur);
        loop
            decreases link_view(cur).len(),
        {
            match cur {
                None => { break; }
                Some(node) => {
                    let mut node = *node;
                    let mut rest: Link<T> = None;
                    core::mem::swap(&mut node.next, &mut rest);
                    cur = rest;
                }
            }
        }
    }
}

/// The owning iterator: it holds the stack itself and pops one element
/// per step, so the consumed prefix is gone for good.
pub struct IntoIter<T>(List<T>);

impl<T> IntoIter<T> {
    /// The elements the iterator has yet to yield, in yield order.
    pub closed spec fn view(&self) -> Seq<T> {
        self.0@
    }

    /// Yields the next element by value, or `None` forever once the
    /// underlying stack is exhausted.
    pub fn next(&mut self) -> (r: Option<T>)
        ensures
            old(self)@.len() == 0 ==> r is None && final(self)@ == old(self)@,
            old(self)@.len() > 0 ==> r == Some(top(old(self)@))
                && final(self)@ == popped(old(self)@),
    {
        self.0.pop()
    }
}

/// The borrowing iterator: a cursor of read-only references that walks
/// the chain without touching it.
pub struct Iter<'a, T> {
    next: Option<&'a Node<T>>,
}

impl<'a, T> Iter<'a, T> {
    /// The elements the iterator has yet to yield, in yield order.
    pub closed spec fn view(&self) -> Seq<T> {
        match self.next {
            None => Seq::empty(),
            Some(node) => node@,
        }
    }

    /// Yields a reference to the next element, advancing the cursor to
    /// the node behind it; `None` forever once the chain is walked.
    pub fn next(&mut self) -> (r: Option<&'a T>)
        ensures
            old(self)@.len() == 0 ==> r is None && final(self)@ == old(self)@,
            old(self)@.len() > 0 ==> r is Some && *r.unwrap() == top(old(self)@)
                && final(self)@ == popped(old(self)@),
    {
        match self.next {
            None => None,
            Some(node) => {
                self.next = match &node.next {
                    None => None,
                    Some(next_node) => Some(&**next_node),
                };
                Some(&node.elem)
            }
        }
    }
}

/// The mutably borrowing iterator: a cursor of exclusive references. Each
/// step takes the stored reference out of the cursor before splitting it,
/// so the iterator never holds two live claims to the same node.
pub struct IterMut<'a, T> {
    next: Option<&'a mut Node<T>>,
}

impl<'a, T> IterMut<'a, T> {
    /// The cursor itself: the exclusive reference to the next node to
    /// visit, if any. Contracts apply `final` to it to speak about the
    /// values the borrowed chain settles on once iteration is over.
    pub closed spec fn cursor(&self) -> Option<&'a mut Node<T>> {
        self.next
    }

    /// The elements the iterator has yet to yield, in yield order, as
    /// they stand right now.
    pub open spec fn view(&self) -> Seq<T> {
        match self.cursor() {
            None => Seq::empty(),
            Some(node) => (*node)@,
        }
    }

    /// Yields an exclusive reference to the next element and advances the
    /// cursor past it; `None` forever once the chain is walked. The chain
    /// the old cursor settles on is whatever the caller leaves through the
    /// yielded reference, followed by the chain the new cursor settles on.
    pub fn next(&mut self) -> (r: Option<&'a mut T>)
        ensures
            old(self)@.len() == 0 ==> r is None
                && final(self)@ == old(self)@
                && final(self).cursor() == old(self).cursor(),
            old(self)@.len() > 0 ==> r is Some && *r.unwrap() == top(old(self)@)
                && final(self)@ == popped(old(self)@)
                && (*final(old(self).cursor().unwrap()))@ == seq![*final(r.unwrap())]
                    + (match final(self).cursor() {
                        None => Seq::<T>::empty(),
                        Some(node) => (*final(node))@,
                    }),
    {
        match self.next.take() {
            None => None,
            Some(node) => {
                self.next = match &mut node.next {
                    None => None,
                    Some(next_node) => Some(&mut **next_node),
                };
                Some(&mut node.elem)
            }
        }
    }
}

/// Once an exclusive iterator can no longer be used, the chain its cursor
/// rests on settles on the values it holds right then: no other live
/// reference can reach those nodes.
pub broadcast proof fn lemma_iter_mut_settles<'a, T>(it: IterMut<'a, T>)
    ensures
        #[trigger] has_resolved(it) ==> (match it.cursor() {
            None => true,
            Some(node) => *final(node) == *node,
        }),
{
}

} // verus!
