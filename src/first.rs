//! A stack of `i32` values built from boxed nodes.
use vstd::prelude::*;

verus! {

/// A last-in, first-out stack of integers.
pub struct List {
    head: Link,
}

struct Node {
    elem: i32,
    next: Link,
}

enum Link {
    Empty,
    More(Box<Node>),
}

impl Link {
    /// The elements reachable from this link, nearest first.
    spec fn elems(&self) -> Seq<i32>
        decreases self,
    {
        match self {
            Link::Empty => Seq::empty(),
            Link::More(node) => seq![node.elem] + node.next.elems(),
        }
    }
}

impl View for List {
    type V = Seq<i32>;

    /// The stack's contents, top first.
    closed spec fn view(&self) -> Seq<i32> {
        self.head.elems()
    }
}

impl List {
    pub fn new() -> (r: Self)
        ensures
            r@ == Seq::<i32>::empty(),
    {
        List { head: Link::Empty }
    }

    /// Places `elem` on top of the stack.
    pub fn push(&mut self, elem: i32)
        ensures
            final(self)@ == seq![elem] + old(self)@,
    {
        let mut rest = Link::Empty;
        std::mem::swap(&mut self.head, &mut rest);
        self.head = Link::More(Box::new(Node { elem, next: rest }));
    }

    /// Takes the top element off the stack, or reports that it is empty.
    pub fn pop(&mut self) -> (r: Option<i32>)
        ensures
            old(self)@.len() == 0 ==> r is None && final(self)@ == old(self)@,
            old(self)@.len() > 0 ==> r == Some(old(self)@[0]) && final(self)@ == old(
                self,
            )@.drop_first(),
    {
        let mut taken = Link::Empty;
        std::mem::swap(&mut self.head, &mut taken);
        match taken {
            Link::Empty => None,
            Link::More(node) => {
                let node = *node;
                self.head = node.next;
                assert(old(self)@.drop_first() =~= self@);
                Some(node.elem)
            },
        }
    }
}

impl Drop for List {
    /// Releases the nodes one at a time, so that a long stack does not
    /// recurse.
    fn drop(&mut self)
        opens_invariants none
        no_unwind
    {
        let mut cur = Link::Empty;
        std::mem::swap(&mut self.head, &mut cur);
        loop
            decreases cur.elems().len(),
        {
            match cur {
                Link::More(node) => {
                    let node = *node;
                    cur = node.next;
                },
                Link::Empty => {
                    break;
                },
            }
        }
    }
}

} // verus!
