//! A double-ended list with an exclusive cursor.
//!
//! The list keeps its elements in one contiguous buffer in front-to-back
//! order; every operation of the list and of its cursor is stated over that
//! order, `self@`.
use vstd::prelude::*;

pub mod cursor;

pub use cursor::CursorMut;

verus! {

/// The sequence produced by walking a list from its front to its back, one
/// element per step.
pub open spec fn walk_forward<T>(s: Seq<T>) -> Seq<T>
    decreases s.len(),
{
    if s.len() == 0 {
        Seq::empty()
    } else {
        seq![s[0]] + walk_forward(s.drop_first())
    }
}

/// The sequence produced by walking a list from its back to its front, one
/// element per step.
pub open spec fn walk_backward<T>(s: Seq<T>) -> Seq<T>
    decreases s.len(),
{
    if s.len() == 0 {
        Seq::empty()
    } else {
        seq![s.last()] + walk_backward(s.drop_last())
    }
}

/// A forward walk meets every element once, in order.
pub proof fn lemma_walk_forward<T>(s: Seq<T>)
    ensures
        walk_forward(s) == s,
    decreases s.len(),
{
    if s.len() > 0 {
        lemma_walk_forward(s.drop_first());
        assert(walk_forward(s) =~= s);
    } else {
        assert(walk_forward(s) =~= s);
    }
}

/// A backward walk meets every element once, in reverse order.
pub proof fn lemma_walk_backward<T>(s: Seq<T>)
    ensures
        walk_backward(s) == s.reverse(),
    decreases s.len(),
{
    if s.len() > 0 {
        lemma_walk_backward(s.drop_last());
        assert(walk_backward(s) =~= s.reverse());
    } else {
        assert(walk_backward(s) =~= s.reverse());
    }
}

/// The front-to-back walk of a list, reversed, is its back-to-front walk.
pub proof fn lemma_walks_agree<T>(l: LinkedList<T>)
    ensures
        walk_forward(l@) == walk_backward(l@).reverse(),
{
    lemma_walk_forward(l@);
    lemma_walk_backward(l@);
    assert(l@.reverse().reverse() =~= l@);
}

/// A list's length is the number of elements a walk from its front meets.
pub proof fn lemma_len_is_walk_len<T>(l: LinkedList<T>)
    ensures
        walk_forward(l@).len() == l@.len(),
{
    lemma_walk_forward(l@);
}

/// A double-ended list.
pub struct LinkedList<T> {
    items: Vec<T>,
}

impl<T> View for LinkedList<T> {
    type V = Seq<T>;

    /// The elements from front to back.
    closed spec fn view(&self) -> Seq<T> {
        self.items@
    }
}

impl<T> LinkedList<T> {
    /// An empty list.
    pub fn new() -> (r: Self)
        ensures
            r@ == Seq::<T>::empty(),
    {
        LinkedList { items: Vec::new() }
    }

    /// The number of elements, which is the number of steps a walk from the
    /// front takes to pass the back.
    pub fn len(&self) -> (r: usize)
        ensures
            r == self@.len(),
    {
        self.items.len()
    }

    pub fn is_empty(&self) -> (r: bool)
        ensures
            r == (self@.len() == 0),
    {
        self.items.len() == 0
    }

    pub fn push_front(&mut self, elem: T)
        ensures
            final(self)@ == seq![elem] + old(self)@,
    {
        self.items.insert(0, elem);
        assert(self@ =~= seq![elem] + old(self)@);
    }

    pub fn push_back(&mut self, elem: T)
        ensures
            final(self)@ == old(self)@.push(elem),
    {
        self.items.push(elem);
    }

    pub fn pop_front(&mut self) -> (r: Option<T>)
        ensures
            old(self)@.len() == 0 ==> r is None && final(self)@ == old(self)@,
            old(self)@.len() > 0 ==> r == Some(old(self)@[0]) && final(self)@ == old(
                self,
            )@.drop_first(),
    {
        if self.items.len() == 0 {
            None
        } else {
            let x = self.items.remove(0);
            assert(self@ =~= old(self)@.drop_first());
            Some(x)
        }
    }

    pub fn pop_back(&mut self) -> (r: Option<T>)
        ensures
            old(self)@.len() == 0 ==> r is None && final(self)@ == old(self)@,
            old(self)@.len() > 0 ==> r == Some(old(self)@.last()) && final(self)@ == old(
                self,
            )@.drop_last(),
    {
        let r = self.items.pop();
        proof {
            if old(self)@.len() > 0 {
                assert(self@ =~= old(self)@.drop_last());
            }
        }
        r
    }

    /// Appends every element of `items` at the back, in order.
    pub fn extend(&mut self, items: Vec<T>)
        ensures
            final(self)@ == old(self)@ + items@,
    {
        let mut items = items;
        self.items.append(&mut items);
    }

    /// The elements, front to back, as a vector.
    pub fn into_vec(self) -> (r: Vec<T>)
        ensures
            r@ == self@,
    {
        self.items
    }

    /// Borrows the elements for a walk from either end.
    pub fn iter(&self) -> (r: Iter<'_, T>)
        ensures
            r@ == self@,
            r.wf(),
    {
        Iter { items: &self.items, front: 0, back: self.items.len() }
    }

    /// A cursor over this list, starting at the ghost position.
    pub fn cursor_mut(&mut self) -> (r: CursorMut<'_, T>)
        ensures
            r.list_view() == old(self)@,
            r.position() is None,
            r.wf(),
            *final(self) == *final(r.list_ref()),
    {
        CursorMut::on_list(self)
    }
}

impl<T> Default for LinkedList<T> {
    fn default() -> (r: Self)
        ensures
            r@ == Seq::<T>::empty(),
    {
        LinkedList::new()
    }
}

/// A walk over the elements of a list that can be taken from either end.
pub struct Iter<'a, T> {
    items: &'a Vec<T>,
    front: usize,
    back: usize,
}

impl<'a, T> View for Iter<'a, T> {
    type V = Seq<T>;

    /// The elements not yet met, front to back.
    closed spec fn view(&self) -> Seq<T> {
        self.items@.subrange(self.front as int, self.back as int)
    }
}

impl<'a, T> Iter<'a, T> {
    /// The walk's bounds lie within the list.
    pub closed spec fn wf(&self) -> bool {
        self.front <= self.back <= self.items@.len()
    }

    /// The next element from the front.
    pub fn next(&mut self) -> (r: Option<&'a T>)
        requires
            old(self).wf(),
        ensures
            final(self).wf(),
            old(self)@.len() == 0 ==> r is None && final(self)@ == old(self)@,
            old(self)@.len() > 0 ==> r == Some(&old(self)@[0]) && final(self)@ == old(
                self,
            )@.drop_first(),
    {
        if self.front < self.back {
            let items: &'a Vec<T> = self.items;
            let x = &items[self.front];
            self.front = self.front + 1;
            assert(self@ =~= old(self)@.drop_first());
            Some(x)
        } else {
            None
        }
    }

    /// The next element from the back.
    pub fn next_back(&mut self) -> (r: Option<&'a T>)
        requires
            old(self).wf(),
        ensures
            final(self).wf(),
            old(self)@.len() == 0 ==> r is None && final(self)@ == old(self)@,
            old(self)@.len() > 0 ==> r == Some(&old(self)@.last()) && final(self)@ == old(
                self,
            )@.drop_last(),
    {
        if self.front < self.back {
            let items: &'a Vec<T> = self.items;
            self.back = self.back - 1;
            let x = &items[self.back];
            assert(self@ =~= old(self)@.drop_last());
            Some(x)
        } else {
            None
        }
    }
}

} // verus!
