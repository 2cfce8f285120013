use vstd::prelude::*;

use crate::{popped, pushed, top};

verus! {

/// The fixed-element stack: the link is a hand-rolled two-variant enum
/// rather than an `Option`, and the elements are 32-bit integers.
pub struct List {
    head: Link,
}

enum Link {
    Empty,
    More(Box<Node>),
}

struct Node {
    elem: i32,
    next: Link,
}

/// The elements reachable from a link, head first.
spec fn link_view(l: Link) -> Seq<i32>
    decreases l,
{
    match l {
        Link::Empty => Seq::empty(),
        Link::More(node) => seq![node.elem] + link_view(node.next),
    }
}

impl List {
    pub closed spec fn view(&self) -> Seq<i32> {
        link_view(self.head)
    }

    /// An empty stack.
    pub fn new() -> (r: Self)
        ensures
            r@ == Seq::<i32>::empty(),
    {
        List { head: Link::Empty }
    }

    /// Puts `elem` on top of the stack. The old chain is swapped out for
    /// an empty placeholder, hung below the new node, and the new node
    /// becomes the head, so the head is never left in a half-moved state.
    pub fn push(&mut self, elem: i32)
        ensures
            final(self)@ == pushed(old(self)@, elem),
    {
        let mut taken = Link::Empty;
        core::mem::swap(&mut self.head, &mut taken);
        let new_node = Box::new(Node { elem, next: taken });
        self.head = Link::More(new_node);
    }

    /// Removes and returns the top element; `None` exactly when the stack
    /// is empty, which leaves it unchanged.
    pub fn pop(&mut self) -> (r: Option<i32>)
        ensures
            old(self)@.len() == 0 ==> r is None && final(self)@ == old(self)@,
            old(self)@.len() > 0 ==> r == Some(top(old(self)@))
                && final(self)@ == popped(old(self)@),
    {
        let mut taken = Link::Empty;
        core::mem::swap(&mut self.head, &mut taken);
        match taken {
            Link::Empty => None,
            Link::More(node) => {
                let node = *node;
                self.head = node.next;
                Some(node.elem)
            }
        }
    }
}

impl Drop for List {
    /// Tears the chain down iteratively: each turn detaches one node,
    /// leaving its `next` empty so that dropping the node itself cannot
    /// recurse down the rest of the chain.
    fn drop(&mut self)
        opens_invariants none
        no_unwind
    {
        let mut cur = Link::Empty;
        core::mem::swap(&mut self.head, &mut cur);
        loop
            decreases link_view(cur).len(),
        {
            match cur {
                Link::Empty => { break; }
                Link::More(node) => {
                    let mut node = *node;
                    let mut rest = Link::Empty;
                    core::mem::swap(&mut node.next, &mut rest);
                    cur = rest;
                }
            }
        }
    }
}

} // verus!
