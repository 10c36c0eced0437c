//! A first-in, first-out queue built from boxed nodes, with borrowing and
//! consuming walks.
use vstd::prelude::*;

verus! {

/// A first-in, first-out queue.
pub struct List<T> {
    head: Link<T>,
}

struct Node<T> {
    elem: T,
    next: Link<T>,
}

type Link<T> = Option<Box<Node<T>>>;

/// The elements reachable from `link`, nearest first.
spec fn link_elems<T>(link: Link<T>) -> Seq<T>
    decreases link,
{
    match link {
        Some(node) => seq![node.elem] + link_elems(node.next),
        None => Seq::empty(),
    }
}

/// Links a new node holding `elem` after the last node reachable from
/// `link`.
fn push_link<T>(link: &mut Link<T>, elem: T)
    ensures
        link_elems(*final(link)) == link_elems(*old(link)).push(elem),
    decreases link_elems(*old(link)).len(),
{
    match link {
        Some(node) => {
            push_link(&mut node.next, elem);
        },
        None => {
            *link = Some(Box::new(Node { elem, next: None }));
        },
    }
}

impl<T> View for List<T> {
    type V = Seq<T>;

    /// The queue's contents, oldest first.
    closed spec fn view(&self) -> Seq<T> {
        link_elems(self.head)
    }
}

impl<T> List<T> {
    pub fn new() -> (r: Self)
        ensures
            r@ == Seq::<T>::empty(),
    {
        List { head: None }
    }

    /// Adds `elem` at the back of the queue.
    pub fn push(&mut self, elem: T)
        ensures
            final(self)@ == old(self)@.push(elem),
    {
        push_link(&mut self.head, elem);
    }

    /// Takes the oldest element out of the queue, or reports that it is empty.
    pub fn pop(&mut self) -> (r: Option<T>)
        ensures
            old(self)@.len() == 0 ==> r is None && final(self)@ == old(self)@,
            old(self)@.len() > 0 ==> r == Some(old(self)@[0]) && final(self)@ == old(
                self,
            )@.drop_first(),
    {
        match self.head.take() {
            Some(node) => {
                let node = *node;
                self.head = node.next;
                assert(old(self)@.drop_first() =~= self@);
                Some(node.elem)
            },
            None => None,
        }
    }

    /// The oldest element, if any.
    pub fn peek(&self) -> (r: Option<&T>)
        ensures
            self@.len() == 0 ==> r is None,
            self@.len() > 0 ==> r == Some(&self@[0]),
    {
        match &self.head {
            Some(node) => Some(&node.elem),
            None => None,
        }
    }

    /// The oldest element, for writing.
    pub fn peek_mut(&mut self) -> (r: Option<&mut T>)
        ensures
            match r {
                Some(e) => {
                    &&& old(self)@.len() > 0
                    &&& *e == old(self)@[0]
                    &&& final(self)@ == old(self)@.update(0, *final(e))
                },
                None => {
                    &&& old(self)@.len() == 0
                    &&& final(self)@ == old(self)@
                },
            },
    {
        match &mut self.head {
            Some(node) => Some(&mut node.elem),
            None => None,
        }
    }

    /// Borrows the elements for a walk from the oldest.
    pub fn iter(&self) -> (r: Iter<'_, T>)
        ensures
            r@ == self@,
    {
        match &self.head {
            Some(node) => Iter { next: Some(&**node) },
            None => Iter { next: None },
        }
    }

    /// Borrows the elements for a walk from the oldest that may change them.
    pub fn iter_mut(&mut self) -> (r: IterMut<'_, T>)
        ensures
            r@ == old(self)@,
    {
        match &mut self.head {
            Some(node) => IterMut { next: Some(&mut **node) },
            None => IterMut { next: None },
        }
    }

    /// Hands the elements out one by one, oldest first.
    pub fn into_iter(self) -> (r: IntoIter<T>)
        ensures
            r@ == self@,
    {
        IntoIter(self)
    }
}

impl<T> Drop for List<T> {
    /// Releases the nodes one at a time, so that a long list does not
    /// recurse.
    fn drop(&mut self)
        opens_invariants none
        no_unwind
    {
        let mut cur = None;
        std::mem::swap(&mut self.head, &mut cur);
        loop
            decreases link_elems(cur).len(),
        {
            match cur {
                Some(node) => {
                    let node = *node;
                    cur = node.next;
                },
                None => {
                    break;
                },
            }
        }
    }
}

/// A walk that takes the elements out of a queue, oldest first.
pub struct IntoIter<T>(List<T>);

impl<T> View for IntoIter<T> {
    type V = Seq<T>;

    /// The elements still to come.
    closed spec fn view(&self) -> Seq<T> {
        self.0@
    }
}

impl<T> IntoIter<T> {
    pub fn next(&mut self) -> (r: Option<T>)
        ensures
            old(self)@.len() == 0 ==> r is None && final(self)@ == old(self)@,
            old(self)@.len() > 0 ==> r == Some(old(self)@[0]) && final(self)@ == old(
                self,
            )@.drop_first(),
    {
        self.0.pop()
    }
}

/// A borrowing walk over a queue, oldest first.
pub struct Iter<'a, T> {
    next: Option<&'a Node<T>>,
}

impl<'a, T> View for Iter<'a, T> {
    type V = Seq<T>;

    /// The elements not yet met.
    closed spec fn view(&self) -> Seq<T> {
        match self.next {
            Some(node) => seq![node.elem] + link_elems(node.next),
            None => Seq::empty(),
        }
    }
}

impl<'a, T> Iter<'a, T> {
    pub fn next(&mut self) -> (r: Option<&'a T>)
        ensures
            old(self)@.len() == 0 ==> r is None && final(self)@ == old(self)@,
            old(self)@.len() > 0 ==> r == Some(&old(self)@[0]) && final(self)@ == old(
                self,
            )@.drop_first(),
    {
        match self.next.take() {
            Some(node) => {
                match &node.next {
                    Some(b) => {
                        self.next = Some(&**b);
                    },
                    None => {
                        self.next = None;
                    },
                }
                assert(self@ =~= old(self)@.drop_first());
                Some(&node.elem)
            },
            None => None,
        }
    }
}

/// A walk over a queue, oldest first, that hands out each element for writing.
pub struct IterMut<'a, T> {
    next: Option<&'a mut Node<T>>,
}

impl<'a, T> View for IterMut<'a, T> {
    type V = Seq<T>;

    /// The elements not yet met, as they stand now.
    closed spec fn view(&self) -> Seq<T> {
        match self.next {
            Some(node) => seq![node.elem] + link_elems(node.next),
            None => Seq::empty(),
        }
    }
}

impl<'a, T> IterMut<'a, T> {
    pub fn next(&mut self) -> (r: Option<&'a mut T>)
        ensures
            old(self)@.len() == 0 ==> r is None && final(self)@ == old(self)@,
            old(self)@.len() > 0 ==> r is Some && *r->0 == old(self)@[0] && final(self)@ == old(
                self,
            )@.drop_first(),
    {
        match self.next.take() {
            Some(node) => {
                let Node { elem, next } = node;
                match next {
                    Some(b) => {
                        self.next = Some(&mut **b);
                    },
                    None => {
                        self.next = None;
                    },
                }
                assert(self@ =~= old(self)@.drop_first());
                Some(elem)
            },
            None => None,
        }
    }
}

} // verus!
