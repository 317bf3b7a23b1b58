//! The list itself.

use crate::model::{first, first_ref, pushed, rest};
use crate::node::{link_elems, take_link, Link, Node};
use vstd::prelude::*;

verus! {

/// A singly linked list with stack discipline: the element pushed last is
/// the head, and the head is what `pop` and `peek` see.
#[derive(Debug)]
pub struct LinkedList<T> {
    pub(crate) head: Link<T>,
    pub(crate) size: usize,
}

impl<T> View for LinkedList<T> {
    type V = Seq<T>;

    /// The elements of the list, head first.
    open(crate) spec fn view(&self) -> Seq<T> {
        link_elems(self.head)
    }
}

impl<T> LinkedList<T> {
    /// The stored count is the number of cells in the chain.
    pub open(crate) spec fn wf(&self) -> bool {
        self.size == link_elems(self.head).len()
    }

    /// An empty list.
    pub fn new() -> (list: Self)
        ensures
            list.wf(),
            list@ == Seq::<T>::empty(),
    {
        LinkedList { head: None, size: 0 }
    }

    /// Puts `elem` in a new cell in front of the chain.
    pub fn push(&mut self, elem: T)
        requires
            old(self).wf(),
            old(self)@.len() < usize::MAX,
        ensures
            final(self).wf(),
            final(self)@ == pushed(old(self)@, elem),
    {
        let new_node = Box::new(Node { elem, next: self.head.take() });
        self.head = Some(new_node);
        self.size += 1;
    }

    /// Removes the head cell and returns its element; `None`, and no change,
    /// where the list is empty. It cannot unwind.
    pub fn pop(&mut self) -> (elem: Option<T>)
        requires
            old(self).wf(),
        ensures
            final(self).wf(),
            elem == first(old(self)@),
            final(self)@ == rest(old(self)@),
            elem is None ==> *final(self) == *old(self),
        no_unwind
    {
        match take_link(&mut self.head) {
            None => None,
            Some(node) => {
                let node = *node;
                self.head = node.next;
                self.size -= 1;
                Some(node.elem)
            },
        }
    }

    /// A shared reference to the head element, or `None` where the list is
    /// empty.
    pub fn peek(&self) -> (elem: Option<&T>)
        ensures
            elem == first_ref(&self@),
    {
        match &self.head {
            None => None,
            Some(node) => Some(&node.elem),
        }
    }

    /// An exclusive reference to the head element, or `None` where the list
    /// is empty. What the caller writes through it is the head element once
    /// the borrow ends; nothing else changes.
    pub fn peek_mut(&mut self) -> (elem: Option<&mut T>)
        requires
            old(self).wf(),
        ensures
            final(self).wf(),
            (match elem {
                None => old(self)@.len() == 0 && *final(self) == *old(self),
                Some(head) => {
                    &&& old(self)@.len() > 0
                    &&& *head == old(self)@[0]
                    &&& final(self)@ == old(self)@.update(0, *final(head))
                },
            }),
    {
        match &mut self.head {
            None => None,
            Some(node) => Some(&mut node.elem),
        }
    }

    /// The number of elements.
    pub fn len(&self) -> (n: usize)
        requires
            self.wf(),
        ensures
            n == self@.len(),
    {
        self.size
    }

    /// Whether the list holds no element.
    pub fn is_empty(&self) -> (empty: bool)
        requires
            self.wf(),
        ensures
            empty <==> self@.len() == 0,
    {
        self.size == 0
    }
}

impl<T> Default for LinkedList<T> {
    /// An empty list, as `new` gives.
    fn default() -> (list: Self)
        ensures
            list.wf(),
            list@ == Seq::<T>::empty(),
    {
        Self::new()
    }
}

impl<T> Drop for LinkedList<T> {
    /// Releases the chain cell by cell, in a loop: each cell is detached from
    /// its successor before it is dropped, so that no drop recurses down the
    /// chain.
    fn drop(&mut self)
        ensures
            final(self)@ == Seq::<T>::empty(),
        opens_invariants none
        no_unwind
    {
        let mut current = take_link(&mut self.head);
        loop
            invariant
                self@ == Seq::<T>::empty(),
            decreases link_elems(current).len(),
        {
            match current {
                None => {
                    break;
                },
                Some(mut node) => {
                    current = take_link(&mut node.next);
                    // The cell that is dropped here owns no other cell.
                    assert(node.next is None);
                },
            }
        }
    }
}

} // verus!
