//! The three ways to walk a list from its head to its tail: by value, by
//! shared reference and by exclusive reference.
//!
//! Each iterator is modelled by the sequence of the elements that are still
//! to come (`it@`). A call of `next` yields the first of them and keeps the
//! rest; on the empty sequence it yields `None` and changes nothing, so an
//! exhausted iterator stays exhausted.
//!
//! The exclusive iterator lends out parts of the list, so what the list
//! holds when the borrow ends depends on what the caller writes. Its
//! contracts say so step by step: `iter_mut` ties the list at the end of the
//! borrow to the chain under the iterator's cursor, and each `next` splits
//! that chain into the element it lends out and the chain under the new
//! cursor. At the end of the chain the cursor is `None` and nothing is left
//! open; an iterator that is given up earlier leaves the rest as it stands
//! (`IterMut::lemma_released`).

use crate::list::LinkedList;
use crate::model::{first, first_ref, rest};
use crate::node::Node;
use vstd::prelude::*;
use vstd::std_specs::iter::IteratorSpecImpl;

verus! {

/// The iterator that owns a list and yields its elements by value, head
/// first, by popping them.
pub struct IntoIter<T> {
    list: LinkedList<T>,
}

impl<T> View for IntoIter<T> {
    type V = Seq<T>;

    /// The elements that are still to come, next one first.
    closed spec fn view(&self) -> Seq<T> {
        self.list@
    }
}

impl<T> IntoIter<T> {
    #[verifier::type_invariant]
    spec fn list_is_well_formed(self) -> bool {
        self.list.wf()
    }
}

impl<T> IteratorSpecImpl for IntoIter<T> {
    open spec fn obeys_prophetic_iter_laws(&self) -> bool {
        true
    }

    open spec fn remaining(&self) -> Seq<T> {
        self@
    }

    open spec fn will_return_none(&self) -> bool {
        true
    }

    open spec fn decrease(&self) -> Option<nat> {
        Some(self@.len())
    }

    open spec fn initial_value_relation(&self, init: &Self) -> bool {
        self@ == init@
    }

    open spec fn peek(&self, index: int) -> Option<T> {
        if 0 <= index < self@.len() {
            Some(self@[index])
        } else {
            None
        }
    }
}

impl<T> Iterator for IntoIter<T> {
    type Item = T;

    /// Pops the next element off the list; `None` once the list is empty,
    /// and from then on.
    fn next(&mut self) -> (item: Option<T>)
        ensures
            item == first(old(self)@),
            final(self)@ == rest(old(self)@),
    {
        proof {
            use_type_invariant(&*self);
        }
        self.list.pop()
    }
}

impl<T> IntoIterator for LinkedList<T> {
    type Item = T;

    type IntoIter = IntoIter<T>;

    /// Moves the list into an iterator over its elements.
    fn into_iter(self) -> (it: IntoIter<T>)
        requires
            self.wf(),
        ensures
            it@ == self@,
    {
        IntoIter { list: self }
    }
}

/// The iterator that borrows a list and yields shared references to its
/// elements, head first.
pub struct Iter<'a, T> {
    next: Option<&'a Node<T>>,
}

impl<'a, T> View for Iter<'a, T> {
    type V = Seq<T>;

    /// The elements that are still to come, next one first.
    closed spec fn view(&self) -> Seq<T> {
        match self.next {
            None => Seq::empty(),
            Some(node) => node@,
        }
    }
}

impl<'a, T> IteratorSpecImpl for Iter<'a, T> {
    open spec fn obeys_prophetic_iter_laws(&self) -> bool {
        true
    }

    open spec fn remaining(&self) -> Seq<&'a T> {
        self@.as_ref()
    }

    open spec fn will_return_none(&self) -> bool {
        true
    }

    open spec fn decrease(&self) -> Option<nat> {
        Some(self@.len())
    }

    open spec fn initial_value_relation(&self, init: &Self) -> bool {
        self@ == init@
    }

    open spec fn peek(&self, index: int) -> Option<&'a T> {
        if 0 <= index < self@.len() {
            Some(&self@[index])
        } else {
            None
        }
    }
}

impl<'a, T> Iterator for Iter<'a, T> {
    type Item = &'a T;

    /// A reference to the element under the cursor, which then moves on to
    /// the next cell; `None` at the end of the chain, and from then on.
    fn next(&mut self) -> (item: Option<&'a T>)
        ensures
            item == first_ref(&old(self)@),
            final(self)@ == rest(old(self)@),
    {
        match self.next {
            None => None,
            Some(node) => {
                self.next = match &node.next {
                    None => None,
                    Some(next) => Some(&**next),
                };
                Some(&node.elem)
            },
        }
    }
}

impl<T> LinkedList<T> {
    /// An iterator over shared references to the elements, head first.
    pub fn iter(&self) -> (it: Iter<'_, T>)
        ensures
            it@ == self@,
    {
        Iter {
            next: match &self.head {
                None => None,
                Some(node) => Some(&**node),
            },
        }
    }
}

/// The iterator that borrows a list exclusively and yields exclusive
/// references to its elements, head first.
pub struct IterMut<'a, T> {
    next: Option<&'a mut Node<T>>,
}

impl<'a, T> View for IterMut<'a, T> {
    type V = Seq<T>;

    /// The elements that are still to come, next one first, as they stand
    /// now.
    closed spec fn view(&self) -> Seq<T> {
        match self.next {
            None => Seq::empty(),
            Some(node) => node@,
        }
    }
}

impl<'a, T> IterMut<'a, T> {
    /// The borrow of the rest of the chain that the iterator holds: the cell
    /// of the next element, or `None` once the end is reached.
    pub closed spec fn cursor(&self) -> Option<&'a mut Node<T>> {
        self.next
    }

    /// The view is what the borrowed rest of the chain holds now: nothing
    /// where the cursor is `None`, and at least one element where it is not.
    pub proof fn lemma_view(&self)
        ensures
            (match self.cursor() {
                None => self@ == Seq::<T>::empty(),
                Some(node) => self@ == node@ && self@.len() > 0,
            }),
    {
    }

    /// An iterator that is no longer used leaves the rest of the chain as it
    /// stands.
    pub proof fn lemma_released(self)
        requires
            has_resolved(self),
        ensures
            self.cursor() matches Some(node) ==> final(node)@ == self@,
    {
    }
}

impl<'a, T> IteratorSpecImpl for IterMut<'a, T> {
    /// The laws speak of the references that are still to come; this
    /// iterator is specified by the contract of `next` instead.
    open spec fn obeys_prophetic_iter_laws(&self) -> bool {
        false
    }

    open spec fn remaining(&self) -> Seq<&'a mut T> {
        Seq::empty()
    }

    open spec fn will_return_none(&self) -> bool {
        true
    }

    open spec fn decrease(&self) -> Option<nat> {
        Some(self@.len())
    }

    open spec fn initial_value_relation(&self, init: &Self) -> bool {
        self@ == init@
    }

    open spec fn peek(&self, index: int) -> Option<&'a mut T> {
        None
    }
}

impl<'a, T> Iterator for IterMut<'a, T> {
    type Item = &'a mut T;

    /// Takes the cursor out of the iterator, puts a borrow of the next cell
    /// in its place, and returns an exclusive reference to the element of
    /// the cell it took; `None` at the end of the chain, and from then on.
    ///
    /// When the borrows end, the chain that the old cursor borrowed holds
    /// what the returned reference holds then, followed by what the chain
    /// under the new cursor holds then.
    fn next(&mut self) -> (item: Option<&'a mut T>)
        ensures
            final(self)@ == rest(old(self)@),
            final(self).cursor() is None <==> final(self)@.len() == 0,
            (match (item, old(self).cursor()) {
                (None, None) => old(self)@.len() == 0,
                (Some(elem), Some(node)) => {
                    &&& old(self)@.len() > 0
                    &&& *elem == old(self)@[0]
                    &&& final(node)@ == seq![*final(elem)] + (match final(self).cursor() {
                        None => Seq::empty(),
                        Some(behind) => final(behind)@,
                    })
                },
                _ => false,
            }),
    {
        match self.next.take() {
            None => None,
            Some(node) => {
                self.next = match &mut node.next {
                    None => None,
                    Some(next) => Some(&mut **next),
                };
                Some(&mut node.elem)
            },
        }
    }
}

impl<T> LinkedList<T> {
    /// An iterator over exclusive references to the elements, head first.
    ///
    /// When the borrow ends, the list holds what the chain under the
    /// iterator's first cursor holds then. The count of elements is not
    /// touched, so the list is well formed again as soon as that chain is
    /// known to be as long as it was.
    pub fn iter_mut(&mut self) -> (it: IterMut<'_, T>)
        requires
            old(self).wf(),
        ensures
            it@ == old(self)@,
            it.cursor() is None <==> it@.len() == 0,
            final(self)@ == (match it.cursor() {
                None => Seq::empty(),
                Some(node) => final(node)@,
            }),
            final(self).wf() <==> final(self)@.len() == old(self)@.len(),
    {
        IterMut {
            next: match &mut self.head {
                None => None,
                Some(node) => Some(&mut **node),
            },
        }
    }
}

} // verus!
