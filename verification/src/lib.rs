//! Singly-linked stacks with verified push/pop/peek and iteration.
//!
//! `int_stack` holds the fixed-element variant built from a hand-rolled
//! link enum; `stack` holds the generic variant together with its three
//! iterator flavours (owning, borrowing, mutably borrowing). Both model
//! a stack as the sequence of its elements from the top down, through
//! the spec functions below, and both tear a long chain down with a
//! loop rather than one recursive call per node.

use vstd::prelude::*;

pub mod int_stack;
pub mod stack;

verus! {

/// The contents of a stack after pushing `x` onto one holding `s`.
pub open spec fn pushed<T>(s: Seq<T>, x: T) -> Seq<T> {
    seq![x] + s
}

/// The element a pop removes from a non-empty stack holding `s`.
pub open spec fn top<T>(s: Seq<T>) -> T
    recommends s.len() > 0,
{
    s[0]
}

/// The contents a pop leaves behind on a non-empty stack holding `s`.
pub open spec fn popped<T>(s: Seq<T>) -> Seq<T>
    recommends s.len() > 0,
{
    s.drop_first()
}

/// Pushing `x` onto a stack holding `s` puts `x` on top of `s` and one
/// pop takes the stack straight back to `s`: push and pop are inverses.
pub proof fn lemma_push_pop<T>(s: Seq<T>, x: T)
    ensures
        pushed(s, x).len() == s.len() + 1,
        top(pushed(s, x)) == x,
        popped(pushed(s, x)) == s,
{
    assert(popped(pushed(s, x)) =~= s);
}

/// Stacks are last-in, first-out: after pushing `a`, then `b`, then `c`
/// onto a stack holding `s`, three pops yield `c`, `b` and `a` in that
/// order and leave `s` behind.
pub proof fn lemma_lifo<T>(s: Seq<T>, a: T, b: T, c: T)
    ensures
        top(pushed(pushed(pushed(s, a), b), c)) == c,
        popped(pushed(pushed(pushed(s, a), b), c)) == pushed(pushed(s, a), b),
        top(pushed(pushed(s, a), b)) == b,
        popped(pushed(pushed(s, a), b)) == pushed(s, a),
        top(pushed(s, a)) == a,
        popped(pushed(s, a)) == s,
{
    lemma_push_pop(pushed(pushed(s, a), b), c);
    lemma_push_pop(pushed(s, a), b);
    lemma_push_pop(s, a);
}

} // verus!
