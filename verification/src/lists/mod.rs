//! Linked lists, from a plain boxed stack to a shared persistent list and a
//! doubly linked deque.

pub mod borrow_checker;
pub mod first;
pub mod second;
pub mod third;
pub mod fourth;
