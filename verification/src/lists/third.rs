//! A persistent stack: lists share their tails through reference counting.

use crate::std_specs::{arc_clone, arc_try_unwrap};
use std::sync::Arc;
use vstd::prelude::*;

verus! {

/// An immutable stack of `T`; its view lists the elements from the top down.
pub struct List<T> {
    head: Link<T>,
}

type Link<T> = Option<Arc<Node<T>>>;

/// One shared cell of a persistent list.
pub struct Node<T> {
    elem: T,
    next: Link<T>,
}

/// Walks a list by shared reference, from the top down.
pub struct Iter<'a, T> {
    next: Option<&'a Node<T>>,
}

impl<T> Node<T> {
    /// The elements held by this node and everything linked behind it.
    pub closed spec fn elems(self) -> Seq<T>
        decreases self,
    {
        seq![self.elem] + link_elems(self.next)
    }
}

spec fn link_elems<T>(link: Link<T>) -> Seq<T>
    decreases link,
{
    match link {
        None => Seq::empty(),
        Some(node) => node.elems(),
    }
}

impl<T> View for List<T> {
    type V = Seq<T>;

    closed spec fn view(&self) -> Seq<T> {
        link_elems(self.head)
    }
}

impl<'a, T> View for Iter<'a, T> {
    type V = Seq<T>;

    /// The elements that are still to come, next one first.
    closed spec fn view(&self) -> Seq<T> {
        match self.next {
            None => Seq::empty(),
            Some(node) => node.elems(),
        }
    }
}

impl<'a, T> Iter<'a, T> {
    /// The next element, which leaves the iterator.
    pub fn next(&mut self) -> (item: Option<&'a T>)
        ensures
            old(self)@.len() == 0 ==> item is None && final(self)@ == old(self)@,
            old(self)@.len() > 0 ==> item == Some(&old(self)@[0]) && final(self)@ == old(
                self)@.drop_first(),
    {
        match self.next.take() {
            None => None,
            Some(node) => {
                self.next = match &node.next {
                    None => None,
                    Some(following) => Some(&**following),
                };
                proof {
                    assert(old(self)@.drop_first() =~= link_elems(node.next));
                }
                Some(&node.elem)
            },
        }
    }
}

impl<T> List<T> {
    /// An empty list.
    pub fn new() -> (list: Self)
        ensures
            list@ == Seq::<T>::empty(),
    {
        List { head: None }
    }

    /// A list with `elem` on top of everything in `self`, which is left as it was.
    pub fn prepend(&self, elem: T) -> (list: Self)
        ensures
            list@ == seq![elem] + self@,
    {
        let next = match &self.head {
            None => None,
            Some(node) => Some(arc_clone(node)),
        };
        List { head: Some(Arc::new(Node { elem, next })) }
    }

    /// The top element, if there is one.
    pub fn head(&self) -> (top: Option<&T>)
        ensures
            self@.len() == 0 ==> top is None,
            self@.len() > 0 ==> top == Some(&self@[0]),
    {
        match &self.head {
            None => None,
            Some(node) => Some(&node.elem),
        }
    }

    /// The list without its top element; the tail of an empty list is empty.
    pub fn tail(&self) -> (list: List<T>)
        ensures
            self@.len() == 0 ==> list@ == Seq::<T>::empty(),
            self@.len() > 0 ==> list@ == self@.drop_first(),
    {
        match &self.head {
            None => List { head: None },
            Some(node) => {
                let next = match &node.next {
                    None => None,
                    Some(following) => Some(arc_clone(following)),
                };
                proof {
                    assert(self@.drop_first() =~= link_elems(node.next));
                }
                List { head: next }
            },
        }
    }

    /// Empties this list. Nodes that no other list shares are unlinked one
    /// at a time, so that releasing a long list never recurses through it;
    /// at the first node that another list still holds the walk stops and
    /// leaves the rest to that list.
    pub fn clear(&mut self)
        ensures
            final(self)@ == Seq::<T>::empty(),
    {
        let mut head = self.head.take();
        loop
            invariant
                self.head is None,
            decreases head,
        {
            match head {
                None => {
                    break ;
                },
                Some(node) => {
                    match arc_try_unwrap(node) {
                        Ok(mut node) => {
                            head = node.next.take();
                        },
                        Err(_) => {
                            break ;
                        },
                    }
                },
            }
        }
    }

    /// An iterator over the elements, top first.
    pub fn iter(&self) -> (iter: Iter<'_, T>)
        ensures
            iter@ == self@,
    {
        match &self.head {
            None => Iter { next: None },
            Some(node) => Iter { next: Some(&**node) },
        }
    }
}

} // verus!
