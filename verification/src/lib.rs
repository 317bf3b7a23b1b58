//! A generic singly linked list that is used as a stack: elements are pushed
//! and popped at the head, the head can be peeked at, and the elements can be
//! walked from the head to the tail by value, by shared reference or by
//! exclusive reference.
//!
//! Every list is modelled by the sequence of its elements, head first
//! (`list@`), and every operation is specified over that sequence.

pub mod iter;
pub mod laws;
pub mod list;
pub mod model;
pub mod node;

pub use iter::{IntoIter, Iter, IterMut};
pub use list::LinkedList;
