//! The cells of the chain.

use vstd::prelude::*;

verus! {

/// An owning handle to the next cell of a chain, or `None` at its end.
pub(crate) type Link<T> = Option<Box<Node<T>>>;

/// One cell of the chain: an element, and the link that owns the rest of the
/// chain.
#[derive(Debug)]
pub struct Node<T> {
    pub(crate) elem: T,
    pub(crate) next: Link<T>,
}

/// The elements of the chain that starts at `link`, head first.
pub(crate) open spec fn link_elems<T>(link: Link<T>) -> Seq<T>
    decreases link,
{
    match link {
        None => Seq::empty(),
        Some(node) => seq![node.elem] + link_elems(node.next),
    }
}

impl<T> View for Node<T> {
    type V = Seq<T>;

    /// The element of this cell followed by those of the cells behind it.
    open(crate) spec fn view(&self) -> Seq<T> {
        seq![self.elem] + link_elems(self.next)
    }
}

/// Detaches the chain that `link` owns and hands it out; `link` is left empty.
/// It does what `Option::take` does, and cannot unwind.
pub(crate) fn take_link<T>(link: &mut Link<T>) -> (chain: Link<T>)
    ensures
        chain == *old(link),
        *final(link) is None,
    opens_invariants none
    no_unwind
{
    let mut chain = None;
    core::mem::swap(link, &mut chain);
    chain
}

} // verus!
