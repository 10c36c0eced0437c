//! The exclusive cursor of a [`LinkedList`].
use vstd::prelude::*;

use super::LinkedList;

verus! {

/// Where `move_next` leads from position `p` in a list of `len` elements.
pub open spec fn next_position(len: nat, p: Option<nat>) -> Option<nat> {
    match p {
        Some(i) => if i + 1 < len {
            Some((i + 1) as nat)
        } else {
            None
        },
        None => if len > 0 {
            Some(0)
        } else {
            None
        },
    }
}

/// Where `move_prev` leads from position `p` in a list of `len` elements.
pub open spec fn prev_position(len: nat, p: Option<nat>) -> Option<nat> {
    match p {
        Some(i) => if i > 0 {
            Some((i - 1) as nat)
        } else {
            None
        },
        None => if len > 0 {
            Some((len - 1) as nat)
        } else {
            None
        },
    }
}

/// The index one step after `p`, which may lie past the back.
pub open spec fn after_index(p: Option<nat>) -> int {
    match p {
        Some(i) => i as int + 1,
        None => 0,
    }
}

/// The index one step before `p`, which may lie before the front.
pub open spec fn before_index(len: nat, p: Option<nat>) -> int {
    match p {
        Some(i) => i - 1,
        None => len - 1,
    }
}

/// What `split_before` leaves in the list.
pub open spec fn split_before_kept<T>(s: Seq<T>, p: Option<nat>) -> Seq<T> {
    match p {
        Some(i) => s.subrange(i as int, s.len() as int),
        None => Seq::empty(),
    }
}

/// What `split_before` hands back.
pub open spec fn split_before_taken<T>(s: Seq<T>, p: Option<nat>) -> Seq<T> {
    match p {
        Some(i) => s.subrange(0, i as int),
        None => s,
    }
}

/// What `split_after` leaves in the list.
pub open spec fn split_after_kept<T>(s: Seq<T>, p: Option<nat>) -> Seq<T> {
    match p {
        Some(i) => s.subrange(0, i as int + 1),
        None => Seq::empty(),
    }
}

/// What `split_after` hands back.
pub open spec fn split_after_taken<T>(s: Seq<T>, p: Option<nat>) -> Seq<T> {
    match p {
        Some(i) => s.subrange(i as int + 1, s.len() as int),
        None => s,
    }
}

/// The cursor's position after `split_before`: index 0 of what is left.
pub open spec fn split_before_position(p: Option<nat>) -> Option<nat> {
    match p {
        Some(_) => Some(0),
        None => None,
    }
}

/// The list after `o` is grafted in just before position `p`; at the ghost,
/// before the front.
pub open spec fn splice_before_seq<T>(s: Seq<T>, p: Option<nat>, o: Seq<T>) -> Seq<T> {
    match p {
        Some(i) => s.subrange(0, i as int) + o + s.subrange(i as int, s.len() as int),
        None => o + s,
    }
}

/// The cursor's position after `splice_before` of `n` elements.
pub open spec fn splice_before_position(p: Option<nat>, n: nat) -> Option<nat> {
    match p {
        Some(i) => Some(i + n),
        None => None,
    }
}

/// The list after `o` is grafted in just after position `p`; at the ghost,
/// after the back.
pub open spec fn splice_after_seq<T>(s: Seq<T>, p: Option<nat>, o: Seq<T>) -> Seq<T> {
    match p {
        Some(i) => s.subrange(0, i as int + 1) + o + s.subrange(i as int + 1, s.len() as int),
        None => s + o,
    }
}

/// The cursor's position after the element at `p` is removed from a list of
/// `len` elements: the removed element's successor, or the ghost.
pub open spec fn remove_position(len: nat, p: Option<nat>) -> Option<nat> {
    match p {
        Some(i) => if i + 1 < len {
            Some(i)
        } else {
            None
        },
        None => None,
    }
}

/// From an element, or from the ghost of a non-empty list, `move_next` and
/// then `move_prev` come back to the same position and index.
pub proof fn lemma_next_then_prev(len: nat, p: Option<nat>)
    requires
        p matches Some(i) ==> i < len,
        p is Some || len > 0,
    ensures
        prev_position(len, next_position(len, p)) == p,
{
}

/// From an element, or from the ghost of a non-empty list, `move_prev` and
/// then `move_next` come back to the same position and index.
pub proof fn lemma_prev_then_next(len: nat, p: Option<nat>)
    requires
        p matches Some(i) ==> i < len,
        p is Some || len > 0,
    ensures
        next_position(len, prev_position(len, p)) == p,
{
}

/// Splicing back, before the cursor, the list that `split_before` just
/// returned restores the earlier elements and the cursor's index.
pub proof fn lemma_split_before_splice_before<T>(s: Seq<T>, p: Option<nat>)
    requires
        p matches Some(i) ==> i < s.len(),
    ensures
        splice_before_seq(
            split_before_kept(s, p),
            split_before_position(p),
            split_before_taken(s, p),
        ) == s,
        splice_before_position(split_before_position(p), split_before_taken(s, p).len()) == p,
{
    assert(splice_before_seq(
        split_before_kept(s, p),
        split_before_position(p),
        split_before_taken(s, p),
    ) =~= s);
}

/// Splicing back, after the cursor, the list that `split_after` just
/// returned restores the earlier elements; the cursor's index is unchanged
/// by both.
pub proof fn lemma_split_after_splice_after<T>(s: Seq<T>, p: Option<nat>)
    requires
        p matches Some(i) ==> i < s.len(),
    ensures
        splice_after_seq(split_after_kept(s, p), p, split_after_taken(s, p)) == s,
{
    assert(splice_after_seq(split_after_kept(s, p), p, split_after_taken(s, p)) =~= s);
}

/// A cursor that borrows a list exclusively. It stands at one element, or at
/// the ghost position, which lies both before the front and after the back.
///
/// The fields are visible to the crate so that verified code in it can follow
/// the borrow back to the list once the cursor is no longer used.
pub struct CursorMut<'a, T> {
    pub(crate) cur: Option<usize>,
    pub(crate) list: &'a mut LinkedList<T>,
}

impl<'a, T> CursorMut<'a, T> {
    /// The elements of the borrowed list, front to back.
    pub open(crate) spec fn list_view(&self) -> Seq<T> {
        (*self.list)@
    }

    /// The index of the element under the cursor, or `None` at the ghost.
    pub closed spec fn position(&self) -> Option<nat> {
        match self.cur {
            Some(i) => Some(i as nat),
            None => None,
        }
    }

    /// The cursor stands at the ghost or at an element of the list.
    pub closed spec fn wf(&self) -> bool {
        match self.cur {
            Some(i) => i < self.list_view().len(),
            None => true,
        }
    }

    /// The borrow of the list that the cursor holds.
    pub open(crate) spec fn list_ref(&self) -> &'a mut LinkedList<T> {
        self.list
    }

    /// A cursor at the ghost position of `list`.
    pub fn on_list(list: &'a mut LinkedList<T>) -> (r: Self)
        ensures
            r.list_view() == old(list)@,
            r.position() is None,
            r.wf(),
            *final(list) == *final(r.list_ref()),
    {
        CursorMut { cur: None, list }
    }

    /// The index of the current element, or `None` at the ghost.
    pub fn index(&self) -> (r: Option<usize>)
        ensures
            r matches Some(i) ==> self.position() == Some(i as nat),
            r is None ==> self.position() is None,
    {
        self.cur
    }

    /// The number of elements in the borrowed list.
    pub fn list_len(&self) -> (r: usize)
        ensures
            r == self.list_view().len(),
    {
        self.list.len()
    }

    /// Steps towards the back; from the last element to the ghost, and from
    /// the ghost to the front.
    pub fn move_next(&mut self)
        requires
            old(self).wf(),
        ensures
            final(self).wf(),
            final(self).list_view() == old(self).list_view(),
            final(self).position() == next_position(
                old(self).list_view().len(),
                old(self).position(),
            ),
            *final(final(self).list_ref()) == *final(old(self).list_ref()),
    {
        let n = self.list.len();
        match self.cur {
            Some(i) => {
                assert(i < self.list_view().len());
                if i + 1 < n {
                    self.cur = Some(i + 1);
                } else {
                    self.cur = None;
                }
            },
            None => {
                if n > 0 {
                    self.cur = Some(0);
                }
            },
        }
    }

    /// Steps towards the front; from the first element to the ghost, and from
    /// the ghost to the back.
    pub fn move_prev(&mut self)
        requires
            old(self).wf(),
        ensures
            final(self).wf(),
            final(self).list_view() == old(self).list_view(),
            final(self).position() == prev_position(
                old(self).list_view().len(),
                old(self).position(),
            ),
            *final(final(self).list_ref()) == *final(old(self).list_ref()),
    {
        let n = self.list.len();
        match self.cur {
            Some(i) => {
                if i > 0 {
                    self.cur = Some(i - 1);
                } else {
                    self.cur = None;
                }
            },
            None => {
                if n > 0 {
                    self.cur = Some(n - 1);
                }
            },
        }
    }

    /// The element under the cursor, or `None` at the ghost.
    pub fn current(&mut self) -> (r: Option<&mut T>)
        requires
            old(self).wf(),
        ensures
            final(self).wf(),
            final(self).position() == old(self).position(),
            *final(final(self).list_ref()) == *final(old(self).list_ref()),
            match r {
                Some(e) => {
                    &&& old(self).position() matches Some(i)
                    &&& *e == old(self).list_view()[i as int]
                    &&& final(self).list_view() == old(self).list_view().update(i as int, *final(e))
                },
                None => {
                    &&& old(self).position() is None
                    &&& final(self).list_view() == old(self).list_view()
                },
            },
    {
        match self.cur {
            Some(i) => Some(&mut self.list.items[i]),
            None => None,
        }
    }

    /// The element one step after the cursor, without moving; `None` past
    /// the back.
    pub fn peek_next(&mut self) -> (r: Option<&mut T>)
        requires
            old(self).wf(),
        ensures
            final(self).wf(),
            final(self).position() == old(self).position(),
            *final(final(self).list_ref()) == *final(old(self).list_ref()),
            match r {
                Some(e) => {
                    let j = after_index(old(self).position());
                    &&& j < old(self).list_view().len()
                    &&& *e == old(self).list_view()[j]
                    &&& final(self).list_view() == old(self).list_view().update(j, *final(e))
                },
                None => {
                    &&& after_index(old(self).position()) >= old(self).list_view().len()
                    &&& final(self).list_view() == old(self).list_view()
                },
            },
    {
        let n = self.list.len();
        let j: usize = match self.cur {
            Some(i) => {
                assert(i < self.list_view().len());
                i + 1
            },
            None => 0,
        };
        if j < n {
            Some(&mut self.list.items[j])
        } else {
            None
        }
    }

    /// The element one step before the cursor, without moving; `None` before
    /// the front.
    pub fn peek_prev(&mut self) -> (r: Option<&mut T>)
        requires
            old(self).wf(),
        ensures
            final(self).wf(),
            final(self).position() == old(self).position(),
            *final(final(self).list_ref()) == *final(old(self).list_ref()),
            match r {
                Some(e) => {
                    let j = before_index(old(self).list_view().len(), old(self).position());
                    &&& 0 <= j
                    &&& *e == old(self).list_view()[j]
                    &&& final(self).list_view() == old(self).list_view().update(j, *final(e))
                },
                None => {
                    &&& before_index(old(self).list_view().len(), old(self).position()) < 0
                    &&& final(self).list_view() == old(self).list_view()
                },
            },
    {
        let n = self.list.len();
        match self.cur {
            Some(i) => {
                if i > 0 {
                    Some(&mut self.list.items[i - 1])
                } else {
                    None
                }
            },
            None => {
                if n > 0 {
                    Some(&mut self.list.items[n - 1])
                } else {
                    None
                }
            },
        }
    }

    /// Cuts the list just before the cursor and returns the front part; the
    /// cursor keeps its element, now at index 0. At the ghost the whole list
    /// is returned and the list is left empty.
    pub fn split_before(&mut self) -> (r: LinkedList<T>)
        requires
            old(self).wf(),
        ensures
            final(self).wf(),
            *final(final(self).list_ref()) == *final(old(self).list_ref()),
            r@ == split_before_taken(old(self).list_view(), old(self).position()),
            final(self).list_view() == split_before_kept(
                old(self).list_view(),
                old(self).position(),
            ),
            final(self).position() == split_before_position(old(self).position()),
    {
        match self.cur {
            Some(i) => {
                let mut rest = self.list.items.split_off(i);
                std::mem::swap(&mut self.list.items, &mut rest);
                self.cur = Some(0);
                LinkedList { items: rest }
            },
            None => {
                let mut all = Vec::new();
                std::mem::swap(&mut self.list.items, &mut all);
                LinkedList { items: all }
            },
        }
    }

    /// Cuts the list just after the cursor and returns the back part; the
    /// cursor keeps its element and index. At the ghost the whole list is
    /// returned and the list is left empty.
    pub fn split_after(&mut self) -> (r: LinkedList<T>)
        requires
            old(self).wf(),
        ensures
            final(self).wf(),
            *final(final(self).list_ref()) == *final(old(self).list_ref()),
            r@ == split_after_taken(old(self).list_view(), old(self).position()),
            final(self).list_view() == split_after_kept(
                old(self).list_view(),
                old(self).position(),
            ),
            final(self).position() == old(self).position(),
    {
        match self.cur {
            Some(i) => {
                let n = self.list.len();
                assert(i < n);
                let rest = self.list.items.split_off(i + 1);
                LinkedList { items: rest }
            },
            None => {
                let mut all = Vec::new();
                std::mem::swap(&mut self.list.items, &mut all);
                LinkedList { items: all }
            },
        }
    }

    /// Grafts all of `other` in just before the cursor (at the ghost: before
    /// the front). The cursor keeps its element.
    pub fn splice_before(&mut self, other: LinkedList<T>)
        requires
            old(self).wf(),
        ensures
            final(self).wf(),
            *final(final(self).list_ref()) == *final(old(self).list_ref()),
            final(self).list_view() == splice_before_seq(
                old(self).list_view(),
                old(self).position(),
                other@,
            ),
            final(self).position() == splice_before_position(old(self).position(), other@.len()),
    {
        let mut o = other.items;
        match self.cur {
            Some(i) => {
                let mut tail = self.list.items.split_off(i);
                let tail_len = tail.len();
                self.list.items.append(&mut o);
                self.list.items.append(&mut tail);
                self.cur = Some(self.list.items.len() - tail_len);
            },
            None => {
                o.append(&mut self.list.items);
                self.list.items = o;
            },
        }
    }

    /// Grafts all of `other` in just after the cursor (at the ghost: after
    /// the back). The cursor keeps its element and index.
    pub fn splice_after(&mut self, other: LinkedList<T>)
        requires
            old(self).wf(),
        ensures
            final(self).wf(),
            *final(final(self).list_ref()) == *final(old(self).list_ref()),
            final(self).list_view() == splice_after_seq(
                old(self).list_view(),
                old(self).position(),
                other@,
            ),
            final(self).position() == old(self).position(),
    {
        let mut o = other.items;
        match self.cur {
            Some(i) => {
                let n = self.list.len();
                assert(i < n);
                let mut tail = self.list.items.split_off(i + 1);
                self.list.items.append(&mut o);
                self.list.items.append(&mut tail);
            },
            None => {
                self.list.items.append(&mut o);
            },
        }
    }

    /// Inserts `elem` just before the cursor (at the ghost: as the new front).
    pub fn insert_before(&mut self, elem: T)
        requires
            old(self).wf(),
        ensures
            final(self).wf(),
            *final(final(self).list_ref()) == *final(old(self).list_ref()),
            final(self).list_view() == splice_before_seq(
                old(self).list_view(),
                old(self).position(),
                seq![elem],
            ),
            final(self).position() == splice_before_position(old(self).position(), 1),
    {
        let mut other = LinkedList::new();
        other.push_front(elem);
        self.splice_before(other);
    }

    /// Inserts `elem` just after the cursor (at the ghost: as the new back).
    pub fn insert_after(&mut self, elem: T)
        requires
            old(self).wf(),
        ensures
            final(self).wf(),
            *final(final(self).list_ref()) == *final(old(self).list_ref()),
            final(self).list_view() == splice_after_seq(
                old(self).list_view(),
                old(self).position(),
                seq![elem],
            ),
            final(self).position() == old(self).position(),
    {
        let mut other = LinkedList::new();
        other.push_front(elem);
        self.splice_after(other);
    }

    /// Takes the element under the cursor out of the list; the cursor moves
    /// on to its successor, or to the ghost. `None` at the ghost.
    pub fn remove_current(&mut self) -> (r: Option<T>)
        requires
            old(self).wf(),
        ensures
            final(self).wf(),
            *final(final(self).list_ref()) == *final(old(self).list_ref()),
            final(self).position() == remove_position(
                old(self).list_view().len(),
                old(self).position(),
            ),
            match old(self).position() {
                Some(i) => {
                    &&& r == Some(old(self).list_view()[i as int])
                    &&& final(self).list_view() == old(self).list_view().remove(i as int)
                },
                None => {
                    &&& r is None
                    &&& final(self).list_view() == old(self).list_view()
                },
            },
    {
        match self.cur {
            Some(i) => {
                let x = self.list.items.remove(i);
                if i < self.list.items.len() {
                    self.cur = Some(i);
                } else {
                    self.cur = None;
                }
                Some(x)
            },
            None => None,
        }
    }
}

} // verus!
