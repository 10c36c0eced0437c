//! A persistent stack whose versions share their tails through
//! reference-counted nodes.
use std::sync::Arc;
use vstd::prelude::*;

verus! {

/// An immutable stack; `prepend` and `tail` build new versions that share
/// nodes with the old one.
pub struct List<T> {
    head: Link<T>,
}

struct Node<T> {
    elem: T,
    next: Link<T>,
}

type Link<T> = Option<Arc<Node<T>>>;

/// The elements reachable from `link`, nearest first.
spec fn link_elems<T>(link: Link<T>) -> Seq<T>
    decreases link,
{
    match link {
        Some(node) => seq![node.elem] + link_elems(node.next),
        None => Seq::empty(),
    }
}

/// Relies on `Arc::clone`: the new handle shares the same node, so it holds
/// the same value.
#[verifier::external_body]
fn share<T>(node: &Arc<T>) -> (r: Arc<T>)
    ensures
        r == *node,
{
    Arc::clone(node)
}

/// Another handle on the same chain of nodes.
fn share_link<T>(link: &Link<T>) -> (r: Link<T>)
    ensures
        link_elems(r) == link_elems(*link),
{
    match link {
        Some(node) => Some(share(node)),
        None => None,
    }
}

/// Relies on `Arc::try_unwrap`: the value comes out when this was the only
/// handle on it, and the handle comes back unchanged otherwise.
#[verifier::external_body]
fn try_unwrap<T>(node: Arc<T>) -> (r: Result<T, Arc<T>>)
    ensures
        match r {
            Ok(t) => t == node,
            Err(e) => e == node,
        },
    opens_invariants none
    no_unwind
{
    Arc::try_unwrap(node)
}

impl<T> View for List<T> {
    type V = Seq<T>;

    /// The stack's contents, top first.
    closed spec fn view(&self) -> Seq<T> {
        link_elems(self.head)
    }
}

impl<T> List<T> {
    pub fn new() -> (r: Self)
        ensures
            r@ == Seq::<T>::empty(),
    {
        List { head: None }
    }

    /// A new version with `elem` on top of this one's elements.
    pub fn prepend(&self, elem: T) -> (r: Self)
        ensures
            r@ == seq![elem] + self@,
    {
        List { head: Some(Arc::new(Node { elem, next: share_link(&self.head) })) }
    }

    /// A new version without this one's top element; empty stays empty.
    pub fn tail(&self) -> (r: Self)
        ensures
            self@.len() == 0 ==> r@ == Seq::<T>::empty(),
            self@.len() > 0 ==> r@ == self@.drop_first(),
    {
        match &self.head {
            Some(node) => {
                let r = List { head: share_link(&node.next) };
                assert(r@ =~= self@.drop_first());
                r
            },
            None => List { head: None },
        }
    }

    /// The top element, if any.
    pub fn head(&self) -> (r: Option<&T>)
        ensures
            self@.len() == 0 ==> r is None,
            self@.len() > 0 ==> r == Some(&self@[0]),
    {
        match &self.head {
            Some(node) => Some(&node.elem),
            None => None,
        }
    }

    /// Borrows the elements for a walk from the top.
    pub fn iter(&self) -> (r: Iter<'_, T>)
        ensures
            r@ == self@,
    {
        match &self.head {
            Some(node) => Iter { next: Some(&**node) },
            None => Iter { next: None },
        }
    }
}

impl<T> Drop for List<T> {
    /// Releases, one at a time, the nodes that no other version shares, and
    /// stops at the first shared one.
    fn drop(&mut self)
        opens_invariants none
        no_unwind
    {
        let mut cur = None;
        std::mem::swap(&mut self.head, &mut cur);
        loop
            decreases link_elems(cur).len(),
        {
            match cur {
                Some(node) => {
                    match try_unwrap(node) {
                        Ok(node) => {
                            cur = node.next;
                        },
                        Err(_) => {
                            break;
                        },
                    }
                },
                None => {
                    break;
                },
            }
        }
    }
}

/// A borrowing walk over a stack, top first.
pub struct Iter<'a, T> {
    next: Option<&'a Node<T>>,
}

impl<'a, T> View for Iter<'a, T> {
    type V = Seq<T>;

    /// The elements not yet met.
    closed spec fn view(&self) -> Seq<T> {
        match self.next {
            Some(node) => seq![node.elem] + link_elems(node.next),
            None => Seq::empty(),
        }
    }
}

impl<'a, T> Iter<'a, T> {
    pub fn next(&mut self) -> (r: Option<&'a T>)
        ensures
            old(self)@.len() == 0 ==> r is None && final(self)@ == old(self)@,
            old(self)@.len() > 0 ==> r == Some(&old(self)@[0]) && final(self)@ == old(
                self,
            )@.drop_first(),
    {
        match self.next.take() {
            Some(node) => {
                match &node.next {
                    Some(b) => {
                        self.next = Some(&**b);
                    },
                    None => {
                        self.next = None;
                    },
                }
                assert(self@ =~= old(self)@.drop_first());
                Some(&node.elem)
            },
            None => None,
        }
    }
}

} // verus!
