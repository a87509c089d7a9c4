//! A generic stack built from boxed nodes, with three ways of walking it.

use vstd::prelude::*;

verus! {

/// Walks a list by value: every step pops the current top.
pub struct IntoIter<T>(List<T>);

/// Walks a list by shared reference, from the top down.
pub struct Iter<'a, T> {
    next: Option<&'a Node<T>>,
}

/// Walks a list by mutable reference, from the top down.
pub struct IterMut<'a, T> {
    next: Option<&'a mut Node<T>>,
}

/// A stack of `T`; its view lists the elements from the top down.
pub struct List<T> {
    head: Link<T>,
}

struct Node<T> {
    elem: T,
    next: Link<T>,
}

type Link<T> = Option<Box<Node<T>>>;

impl<T> Node<T> {
    /// The elements held by this node and everything linked behind it.
    spec fn elems(self) -> Seq<T>
        decreases self,
    {
        seq![self.elem] + link_elems(self.next)
    }
}

spec fn link_elems<T>(link: Link<T>) -> Seq<T>
    decreases link,
{
    match link {
        None => Seq::empty(),
        Some(node) => node.elems(),
    }
}

impl<T> View for List<T> {
    type V = Seq<T>;

    closed spec fn view(&self) -> Seq<T> {
        link_elems(self.head)
    }
}

impl<T> List<T> {
    /// An empty stack.
    pub fn new() -> (list: Self)
        ensures
            list@ == Seq::<T>::empty(),
    {
        List { head: None }
    }

    /// Puts `elem` on top.
    pub fn push(&mut self, elem: T)
        ensures
            final(self)@ == seq![elem] + old(self)@,
    {
        let new_node = Box::new(Node { elem: elem, next: self.head.take() });
        self.head = Some(new_node);
    }

    /// Takes the top element off, if there is one.
    pub fn pop(&mut self) -> (top: Option<T>)
        ensures
            old(self)@.len() == 0 ==> top is None && final(self)@ == old(self)@,
            old(self)@.len() > 0 ==> top == Some(old(self)@[0]) && final(self)@ == old(self)@.drop_first(),
    {
        match self.head.take() {
            None => None,
            Some(node) => {
                let node = *node;
                self.head = node.next;
                proof {
                    assert(old(self)@.drop_first() =~= link_elems(node.next));
                }
                Some(node.elem)
            },
        }
    }

    /// Empties the stack by unlinking the nodes one at a time, so that
    /// releasing a long list never recurses through every `Box`.
    pub fn clear(&mut self)
        ensures
            final(self)@ == Seq::<T>::empty(),
    {
        let mut cur_link = self.head.take();
        loop
            invariant
                self.head is None,
            decreases cur_link,
        {
            match cur_link {
                None => {
                    break ;
                },
                Some(mut boxed_node) => {
                    cur_link = boxed_node.next.take();
                },
            }
        }
    }

    /// The top element, if there is one.
    pub fn peek(&self) -> (top: Option<&T>)
        ensures
            self@.len() == 0 ==> top is None,
            self@.len() > 0 ==> top == Some(&self@[0]),
    {
        match &self.head {
            None => None,
            Some(node) => Some(&node.elem),
        }
    }
}

impl<T> List<T> {
    /// The top element by mutable reference; what is written through the
    /// reference is what the stack holds on top afterwards.
    pub fn peek_mut(&mut self) -> (top: Option<&mut T>)
        ensures
            old(self)@.len() == 0 ==> top is None && final(self)@ == old(self)@,
            old(self)@.len() > 0 ==> top is Some && *top.unwrap() == old(self)@[0] && final(self)@ == old(self)@.update(0, *final(top.unwrap())),
    {
        match &mut self.head {
            None => None,
            Some(node) => {
                Some(&mut node.elem)
            },
        }
    }

    /// Turns the stack into an iterator over its elements, top first.
    pub fn into_iter(self) -> (iter: IntoIter<T>)
        ensures
            iter@ == self@,
    {
        IntoIter(self)
    }

    /// An iterator over the elements, top first.
    pub fn iter<'a>(&'a self) -> (iter: Iter<'a, T>)
        ensures
            iter@ == self@,
    {
        match &self.head {
            None => Iter { next: None },
            Some(node) => Iter { next: Some(&**node) },
        }
    }
}

impl<T> View for IntoIter<T> {
    type V = Seq<T>;

    /// The elements that are still to come, next one first.
    closed spec fn view(&self) -> Seq<T> {
        self.0@
    }
}

impl<T> IntoIter<T> {
    /// The next element, which leaves the iterator.
    pub fn next(&mut self) -> (item: Option<T>)
        ensures
            old(self)@.len() == 0 ==> item is None && final(self)@ == old(self)@,
            old(self)@.len() > 0 ==> item == Some(old(self)@[0]) && final(self)@ == old(self)@.drop_first(),
    {
        self.0.pop()
    }
}

impl<'a, T> View for Iter<'a, T> {
    type V = Seq<T>;

    /// The elements that are still to come, next one first.
    closed spec fn view(&self) -> Seq<T> {
        match self.next {
            None => Seq::empty(),
            Some(node) => node.elems(),
        }
    }
}

impl<'a, T> Iter<'a, T> {
    /// The next element, which leaves the iterator.
    pub fn next(&mut self) -> (item: Option<&'a T>)
        ensures
            old(self)@.len() == 0 ==> item is None && final(self)@ == old(self)@,
            old(self)@.len() > 0 ==> item == Some(&old(self)@[0]) && final(self)@ == old(self)@.drop_first(),
    {
        match self.next.take() {
            None => None,
            Some(node) => {
                self.next = match &node.next {
                    None => None,
                    Some(following) => Some(&**following),
                };
                proof {
                    assert(old(self)@.drop_first() =~= link_elems(node.next));
                }
                Some(&node.elem)
            },
        }
    }
}

impl<'a, T> View for IterMut<'a, T> {
    type V = Seq<T>;

    /// The elements that are still to come, next one first, as they stand now.
    closed spec fn view(&self) -> Seq<T> {
        match self.next {
            None => Seq::empty(),
            Some(node) => (*node).elems(),
        }
    }
}

impl<'a, T> IterMut<'a, T> {
    /// The next element, which leaves the iterator.
    pub fn next(&mut self) -> (item: Option<&'a mut T>)
        ensures
            old(self)@.len() == 0 ==> item is None && final(self)@ == old(self)@,
            old(self)@.len() > 0 ==> item is Some && *item.unwrap() == old(self)@[0] && final(
                self)@ == old(self)@.drop_first(),
    {
        match self.next.take() {
            None => None,
            Some(node) => {
                proof {
                    assert(old(self)@.drop_first() =~= link_elems(node.next));
                }
                self.next = match &mut node.next {
                    None => None,
                    Some(following) => Some(&mut **following),
                };
                Some(&mut node.elem)
            },
        }
    }
}

impl<T> List<T> {
    /// An iterator that hands out each element by mutable reference, top first.
    pub fn iter_mut(&mut self) -> (iter: IterMut<'_, T>)
        ensures
            iter@ == old(self)@,
    {
        match &mut self.head {
            None => IterMut { next: None },
            Some(node) => IterMut { next: Some(&mut **node) },
        }
    }
}

} // verus!
