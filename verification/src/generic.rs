//! An exclusively-owned singly-linked stack, generic over the element type,
//! with three kinds of iteration.
//!
//! The abstract value of a list is the sequence of its elements from head to
//! tail: `push` prepends, `pop` removes the first element, and the iterators
//! walk the sequence in that order. [`IntoIter`] consumes the list by popping,
//! [`Iter`] follows the chain through immutable borrows and leaves the list
//! untouched, and [`IterMut`] yields a mutable borrow of one element at a
//! time, never two at once.

use vstd::prelude::*;

verus! {

type Link<T> = Option<Box<Node<T>>>;

struct Node<T> {
    elem: T,
    next: Link<T>,
}

/// A LIFO stack backed by an exclusively-owned chain of nodes.
pub struct List<T> {
    head: Link<T>,
}

spec fn link_view<T>(l: Link<T>) -> Seq<T>
    decreases l,
{
    match l {
        None => Seq::empty(),
        Some(node) => seq![node.elem] + link_view(node.next),
    }
}

impl<T> View for List<T> {
    type V = Seq<T>;

    closed spec fn view(&self) -> Seq<T> {
        link_view(self.head)
    }
}

impl<T> List<T> {
    /// Creates an empty list.
    pub fn new() -> (r: List<T>)
        ensures
            r@ == Seq::<T>::empty(),
    {
        List { head: None }
    }

    /// Pushes `elem` on the front of the list.
    pub fn push(&mut self, elem: T)
        ensures
            final(self)@ == seq![elem] + old(self)@,
    {
        let head = self.head.take();
        self.head = Some(Box::new(Node { elem, next: head }));
    }

    /// Removes and returns the front element, or `None` on an empty list,
    /// which is left empty (so repeated pops on an empty list have no effect).
    pub fn pop(&mut self) -> (r: Option<T>)
        ensures
            old(self)@.len() == 0 ==> r is None && final(self)@ == old(self)@,
            old(self)@.len() > 0 ==> r == Some(old(self)@[0]) && final(self)@ == old(self)@.drop_first(),
    {
        match self.head.take() {
            None => None,
            Some(node) => {
                let node = *node;
                self.head = node.next;
                Some(node.elem)
            },
        }
    }

    /// Borrows the front element, or `None` on an empty list.
    pub fn peek(&self) -> (r: Option<&T>)
        ensures
            self@.len() == 0 ==> r is None,
            self@.len() > 0 ==> (r matches Some(v) && *v == self@[0]),
    {
        match &self.head {
            None => None,
            Some(node) => Some(&node.elem),
        }
    }

    /// Mutably borrows the front element, or `None` on an empty list.
    /// Whatever the caller writes through the borrow becomes the new front
    /// element; the rest of the list is untouched.
    pub fn peek_mut(&mut self) -> (r: Option<&mut T>)
        ensures
            old(self)@.len() == 0 ==> r is None && final(self)@ == old(self)@,
            old(self)@.len() > 0 ==> (r matches Some(v) && *v == old(self)@[0] && final(self)@
                == old(self)@.update(0, *final(v))),
    {
        match &mut self.head {
            None => None,
            Some(node) => Some(&mut node.elem),
        }
    }
}

/// A consuming iterator over a list: it yields the elements by repeated
/// `pop`, so once the list is drained it yields `None` forever.
pub struct IntoIter<T>(List<T>);

impl<T> View for IntoIter<T> {
    type V = Seq<T>;

    closed spec fn view(&self) -> Seq<T> {
        self.0@
    }
}

impl<T> List<T> {
    /// Consumes the list, producing an iterator over its elements in pop
    /// order (front to back).
    pub fn into_iter(self) -> (it: IntoIter<T>)
        ensures
            it@ == self@,
    {
        IntoIter(self)
    }
}

impl<T> IntoIter<T> {
    /// Pops the next element, or returns `None` once the elements are
    /// exhausted; after exhaustion every further call returns `None`.
    pub fn next(&mut self) -> (r: Option<T>)
        ensures
            old(self)@.len() == 0 ==> r is None && final(self)@ == old(self)@,
            old(self)@.len() > 0 ==> r == Some(old(self)@[0]) && final(self)@ == old(self)@.drop_first(),
    {
        self.0.pop()
    }
}

/// An iterator that follows the chain through immutable borrows, leaving the
/// source list untouched and re-iterable.
pub struct Iter<'a, T> {
    next: Option<&'a Node<T>>,
}

impl<'a, T> View for Iter<'a, T> {
    type V = Seq<T>;

    closed spec fn view(&self) -> Seq<T> {
        match self.next {
            None => Seq::empty(),
            Some(node) => seq![node.elem] + link_view(node.next),
        }
    }
}

impl<T> List<T> {
    /// Borrows the list, producing an iterator over its elements from front
    /// to back. The list itself is not changed and can be iterated again.
    pub fn iter<'a>(&'a self) -> (it: Iter<'a, T>)
        ensures
            it@ == self@,
    {
        Iter {
            next: match &self.head {
                None => None,
                Some(node) => Some(&**node),
            },
        }
    }
}

impl<'a, T> Iter<'a, T> {
    /// Borrows the next element, or returns `None` once the elements are
    /// exhausted; after exhaustion every further call returns `None`.
    pub fn next(&mut self) -> (r: Option<&'a T>)
        ensures
            old(self)@.len() == 0 ==> r is None && final(self)@ == old(self)@,
            old(self)@.len() > 0 ==> (r matches Some(v) && *v == old(self)@[0] && final(self)@
                == old(self)@.drop_first()),
    {
        match self.next {
            None => None,
            Some(node) => {
                self.next = match &node.next {
                    None => None,
                    Some(b) => Some(&**b),
                };
                Some(&node.elem)
            },
        }
    }
}

/// An iterator that follows the chain through mutable borrows: each step
/// gives up its borrow of the previous node before yielding the next one, so
/// at most one live mutable view into the chain exists at a time.
pub struct IterMut<'a, T> {
    next: Option<&'a mut Node<T>>,
}

impl<'a, T> View for IterMut<'a, T> {
    type V = Seq<T>;

    closed spec fn view(&self) -> Seq<T> {
        match self.next {
            None => Seq::empty(),
            Some(node) => seq![node.elem] + link_view(node.next),
        }
    }
}

impl<T> List<T> {
    /// Mutably borrows the list, producing an iterator that yields a mutable
    /// borrow of each element in turn, from front to back.
    pub fn iter_mut<'a>(&'a mut self) -> (it: IterMut<'a, T>)
        ensures
            it@ == old(self)@,
    {
        IterMut {
            next: match &mut self.head {
                None => None,
                Some(node) => Some(&mut **node),
            },
        }
    }
}

impl<'a, T> IterMut<'a, T> {
    /// Mutably borrows the next element, or returns `None` once the elements
    /// are exhausted; after exhaustion every further call returns `None`. The
    /// borrow of the previously yielded element is given up before the next
    /// one is produced.
    pub fn next(&mut self) -> (r: Option<&'a mut T>)
        ensures
            old(self)@.len() == 0 ==> r is None && final(self)@ == old(self)@,
            old(self)@.len() > 0 ==> (r matches Some(v) && *v == old(self)@[0] && final(self)@
                == old(self)@.drop_first()),
    {
        match self.next.take() {
            None => None,
            Some(node) => {
                self.next = match &mut node.next {
                    None => None,
                    Some(b) => Some(&mut **b),
                };
                Some(&mut node.elem)
            },
        }
    }
}

/// The abstract contents of a list holding `s` after pushing each element of
/// `vs` onto it in order: each push puts its element in front, exactly as
/// [`List::push`] promises of the list's view.
pub open spec fn after_pushes<T>(s: Seq<T>, vs: Seq<T>) -> Seq<T>
    decreases vs.len(),
{
    if vs.len() == 0 {
        s
    } else {
        after_pushes(seq![vs[0]] + s, vs.drop_first())
    }
}

/// Law: pushes followed by the same number of pops come back in LIFO order.
/// After pushing `v1, ..., vn` onto a list holding `s`, the list holds
/// `vn, ..., v1` followed by `s`; since [`List::pop`] removes and returns
/// the first element of the view, the next `n` pops yield `vn, ..., v1` —
/// the reverse of the order pushed — and then leave `s`.
pub proof fn lemma_pushes_pop_in_reverse<T>(s: Seq<T>, vs: Seq<T>)
    ensures
        after_pushes(s, vs) == vs.reverse() + s,
        forall|i: int|
            0 <= i < vs.len() ==> after_pushes(s, vs)[i] == vs[vs.len() - 1 - i],
    decreases vs.len(),
{
    if vs.len() == 0 {
        assert(after_pushes(s, vs) =~= vs.reverse() + s);
    } else {
        lemma_pushes_pop_in_reverse(seq![vs[0]] + s, vs.drop_first());
        assert(vs.drop_first().reverse() + (seq![vs[0]] + s) =~= vs.reverse() + s);
    }
}

/// Law: a value written through [`List::peek_mut`] is what a subsequent
/// [`List::pop`] returns. Writing `w` through the returned borrow turns a
/// list holding `s` into one holding `s.update(0, w)`, by `peek_mut`'s
/// contract; popping that list returns exactly `w`, and the elements behind
/// the head are the same as if the write had never happened.
pub proof fn lemma_write_head_then_pop<T>(s: Seq<T>, w: T)
    requires
        s.len() > 0,
    ensures
        s.update(0, w)[0] == w,
        s.update(0, w).drop_first() == s.drop_first(),
{
    assert(s.update(0, w).drop_first() =~= s.drop_first());
}

impl<T> Drop for List<T> {
    /// Tears the chain down iteratively: repeatedly detaches the current
    /// node's successor into a local cursor before releasing the node, so
    /// destruction never recurses one stack frame per node.
    fn drop(&mut self)
        opens_invariants none
        no_unwind
    {
        let mut cur: Link<T> = None;
        core::mem::swap(&mut self.head, &mut cur);
        loop
            decreases link_view(cur).len(),
        {
            match cur {
                None => {
                    break ;
                },
                Some(mut node) => {
                    let mut next: Link<T> = None;
                    core::mem::swap(&mut node.next, &mut next);
                    cur = next;
                },
            }
        }
    }
}


} // verus!
