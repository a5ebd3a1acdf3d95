//! A persistent singly-linked list with reference-counted structural sharing.
//!
//! Once a node is reachable from any list its contents are never mutated:
//! every structural operation builds a new list value and leaves the receiver
//! valid and unchanged, so independently built lists may share a common
//! suffix. A node is freed exactly when the last handle referencing it goes
//! away. The abstract value of a list is the sequence of its elements from
//! head to tail.

use std::rc::Rc;
use vstd::prelude::*;

verus! {

type Link<T> = Option<Rc<Node<T>>>;

struct Node<T> {
    elem: T,
    next: Link<T>,
}

/// An immutable LIFO list whose chain of nodes may be shared with other
/// lists; the reference counts ensure each node is freed exactly once, when
/// the last list referencing it lets go.
pub struct List<T> {
    head: Link<T>,
}

spec fn link_view<T>(l: Link<T>) -> Seq<T>
    decreases l,
{
    match l {
        None => Seq::empty(),
        Some(node) => seq![node.elem] + link_view(node.next),
    }
}

impl<T> View for List<T> {
    type V = Seq<T>;

    closed spec fn view(&self) -> Seq<T> {
        link_view(self.head)
    }
}

/// Relies on `std::rc::Rc::clone`: the returned handle refers to the same
/// node as the argument — only the reference count changes — so as a value
/// it is equal to the argument.
#[verifier::external_body]
fn rc_clone<T>(rc: &Rc<Node<T>>) -> (r: Rc<Node<T>>)
    ensures
        r == *rc,
{
    Rc::clone(rc)
}

/// Relies on `std::rc::Rc::try_unwrap`: when the handle is the last one
/// referencing the node, the node itself is returned; otherwise the handle
/// is returned unchanged. Either way the value carried is the same, and the
/// call does not unwind.
#[verifier::external_body]
fn rc_take_last<T>(rc: Rc<Node<T>>) -> (r: Result<Node<T>, Rc<Node<T>>>)
    ensures
        match r {
            Ok(node) => node == rc,
            Err(e) => e == rc,
        },
    no_unwind
{
    Rc::try_unwrap(rc)
}

impl<T> List<T> {
    /// Creates an empty list.
    pub fn new() -> (r: List<T>)
        ensures
            r@ == Seq::<T>::empty(),
    {
        List { head: None }
    }

    /// Returns a new list with `elem` in front of this list's elements. The
    /// receiver is borrowed immutably, so it is unchanged and remains valid;
    /// the new list shares the receiver's whole chain rather than copying it.
    pub fn prepend(&self, elem: T) -> (r: List<T>)
        ensures
            r@ == seq![elem] + self@,
    {
        let next = match &self.head {
            None => None,
            Some(rc) => Some(rc_clone(rc)),
        };
        List { head: Some(Rc::new(Node { elem, next })) }
    }

    /// Returns the list of all elements but the first — the empty list if
    /// the receiver is empty. The receiver is unchanged; the result shares
    /// the receiver's chain past its head node.
    pub fn tail(&self) -> (r: List<T>)
        ensures
            self@.len() == 0 ==> r@ == Seq::<T>::empty(),
            self@.len() > 0 ==> r@ == self@.drop_first(),
    {
        let head = match &self.head {
            None => None,
            Some(rc) => match &rc.next {
                None => None,
                Some(next_rc) => Some(rc_clone(next_rc)),
            },
        };
        List { head }
    }

    /// Borrows the front element, or `None` on an empty list.
    pub fn head(&self) -> (r: Option<&T>)
        ensures
            self@.len() == 0 ==> r is None,
            self@.len() > 0 ==> (r matches Some(v) && *v == self@[0]),
    {
        match &self.head {
            None => None,
            Some(rc) => Some(&rc.elem),
        }
    }

    /// Borrows the list, producing an iterator over its elements from front
    /// to back. The list is never mutated, so a fresh iterator can be made
    /// from it again and again with identical results.
    pub fn iter<'a>(&'a self) -> (it: Iter<'a, T>)
        ensures
            it@ == self@,
    {
        Iter {
            next: match &self.head {
                None => None,
                Some(rc) => Some(&**rc),
            },
        }
    }
}

/// An iterator that follows the chain through immutable borrows, leaving the
/// source list untouched and re-iterable.
pub struct Iter<'a, T> {
    next: Option<&'a Node<T>>,
}

impl<'a, T> View for Iter<'a, T> {
    type V = Seq<T>;

    closed spec fn view(&self) -> Seq<T> {
        match self.next {
            None => Seq::empty(),
            Some(node) => seq![node.elem] + link_view(node.next),
        }
    }
}

impl<'a, T> Iter<'a, T> {
    /// Borrows the next element, or returns `None` once the elements are
    /// exhausted; after exhaustion every further call returns `None`.
    pub fn next(&mut self) -> (r: Option<&'a T>)
        ensures
            old(self)@.len() == 0 ==> r is None && final(self)@ == old(self)@,
            old(self)@.len() > 0 ==> (r matches Some(v) && *v == old(self)@[0] && final(self)@
                == old(self)@.drop_first()),
    {
        match self.next {
            None => None,
            Some(node) => {
                self.next = match &node.next {
                    None => None,
                    Some(b) => Some(&**b),
                };
                Some(&node.elem)
            },
        }
    }
}

/// Iterative teardown of a detached chain: reclaims each node only if the
/// handle at hand is its last reference, and stops at once when a node is
/// still shared, since the remaining suffix is still owned by other lists
/// and must stay intact. Sharing is monotonic along a chain — every node
/// past a shared node is reachable from that node's other owners — so
/// nothing beyond the stopping point may be inspected or freed here.
fn drain<T>(head0: Link<T>)
    no_unwind
{
    let mut head: Link<T> = head0;
    loop
        decreases link_view(head).len(),
    {
        match head {
            None => {
                break ;
            },
            Some(rc) => {
                match rc_take_last(rc) {
                    Ok(mut node) => {
                        let mut next: Link<T> = None;
                        core::mem::swap(&mut node.next, &mut next);
                        head = next;
                    },
                    Err(_) => {
                        break ;
                    },
                }
            },
        }
    }
}

impl<T> Drop for List<T> {
    /// Detaches the whole chain and hands it to [`drain`], which tears it
    /// down iteratively, so destruction never recurses one stack frame per
    /// node. The body stays outside the verifier's view only because Verus
    /// does not yet accept function calls inside a `Drop` implementation;
    /// all of the teardown logic is in the verified [`drain`].
    #[verifier::external_body]
    fn drop(&mut self)
        opens_invariants none
        no_unwind
    {
        let mut head: Link<T> = None;
        core::mem::swap(&mut self.head, &mut head);
        drain(head);
    }
}

} // verus!
