//! An exclusively-owned singly-linked stack of `i32` values.
//!
//! The list owns its whole chain of nodes: every node has exactly one owner
//! at any instant, and each operation that could duplicate ownership instead
//! performs an explicit transfer by swapping the head slot with an empty
//! placeholder. The abstract value of a list is the sequence of its elements
//! from head to tail, so `push` prepends and `pop` removes the first element.
//!
//! The law that a run of pushes followed by as many pops comes back in LIFO
//! order is stated and proved once, over sequences of any element type, by
//! [`crate::generic::lemma_pushes_pop_in_reverse`]; it applies to this list
//! word for word, since `push` and `pop` here carry the same contracts.

use vstd::prelude::*;

verus! {

enum Link {
    Empty,
    More(Box<Node>),
}

struct Node {
    elem: i32,
    next: Link,
}

/// A LIFO stack of `i32` values backed by an exclusively-owned chain of nodes.
pub struct List {
    head: Link,
}

impl Link {
    spec fn view(self) -> Seq<i32>
        decreases self,
    {
        match self {
            Link::Empty => Seq::empty(),
            Link::More(node) => seq![node.elem] + node.next.view(),
        }
    }
}

impl View for List {
    type V = Seq<i32>;

    closed spec fn view(&self) -> Seq<i32> {
        self.head.view()
    }
}

impl List {
    /// Creates an empty list.
    pub fn new() -> (r: List)
        ensures
            r@ == Seq::<i32>::empty(),
    {
        List { head: Link::Empty }
    }

    /// Pushes `elem` on the front of the list.
    pub fn push(&mut self, elem: i32)
        ensures
            final(self)@ == seq![elem] + old(self)@,
    {
        let mut head = Link::Empty;
        core::mem::swap(&mut self.head, &mut head);
        self.head = Link::More(Box::new(Node { elem, next: head }));
    }

    /// Removes and returns the front element, or `None` on an empty list,
    /// which is left empty (so repeated pops on an empty list have no effect).
    pub fn pop(&mut self) -> (r: Option<i32>)
        ensures
            old(self)@.len() == 0 ==> r is None && final(self)@ == old(self)@,
            old(self)@.len() > 0 ==> r == Some(old(self)@[0]) && final(self)@ == old(self)@.drop_first(),
    {
        let mut head = Link::Empty;
        core::mem::swap(&mut self.head, &mut head);
        match head {
            Link::Empty => None,
            Link::More(node) => {
                let node = *node;
                self.head = node.next;
                Some(node.elem)
            },
        }
    }
}

impl Drop for List {
    /// Tears the chain down iteratively: repeatedly detaches the current
    /// node's successor into a local cursor before releasing the node, so
    /// destruction never recurses one stack frame per node.
    fn drop(&mut self)
        opens_invariants none
        no_unwind
    {
        let mut cur = Link::Empty;
        core::mem::swap(&mut self.head, &mut cur);
        loop
            decreases cur.view().len(),
        {
            match cur {
                Link::Empty => {
                    break ;
                },
                Link::More(mut node) => {
                    let mut next = Link::Empty;
                    core::mem::swap(&mut node.next, &mut next);
                    cur = next;
                },
            }
        }
    }
}

} // verus!
