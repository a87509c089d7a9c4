//! A doubly linked deque whose nodes live in an arena and name their
//! neighbours by position.

use vstd::prelude::*;

verus! {

type Link = Option<usize>;

/// A deque of `T`; its view lists the elements from the front to the back.
pub struct List<T> {
    head: Link,
    tail: Link,
    nodes: Vec<Node<T>>,
}

/// One cell of the deque: `next` leads away from the front and `prev` back
/// towards it.
pub struct Node<T> {
    elem: T,
    next: Link,
    prev: Link,
}

impl<T> Node<T> {
    /// A node that is linked to nothing yet.
    fn new(elem: T) -> (node: Self)
        ensures
            node.elem == elem,
            node.next is None,
            node.prev is None,
    {
        Node { elem, next: None, prev: None }
    }
}

/// The links of a chain of `len` nodes: the front is the node allocated last,
/// and every node is joined to the one allocated just before it.
spec fn linked<T>(head: Link, tail: Link, nodes: Seq<Node<T>>) -> bool {
    &&& head == (if nodes.len() == 0 {
        None
    } else {
        Some((nodes.len() - 1) as usize)
    })
    &&& tail == (if nodes.len() == 0 {
        None
    } else {
        Some(0usize)
    })
    &&& forall|i: int|
        0 <= i < nodes.len() ==> {
            &&& (#[trigger] nodes[i]).next == (if i == 0 {
                None
            } else {
                Some((i - 1) as usize)
            })
            &&& nodes[i].prev == (if i + 1 == nodes.len() {
                None
            } else {
                Some((i + 1) as usize)
            })
        }
}

impl<T> View for List<T> {
    type V = Seq<T>;

    closed spec fn view(&self) -> Seq<T> {
        Seq::new(self.nodes@.len(), |k: int| self.nodes@[self.nodes@.len() - 1 - k].elem)
    }
}

impl<T> List<T> {
    #[verifier::type_invariant]
    spec fn well_linked(self) -> bool {
        linked(self.head, self.tail, self.nodes@)
    }

    /// An empty deque.
    pub fn new() -> (list: Self)
        ensures
            list@ == Seq::<T>::empty(),
    {
        List { head: None, tail: None, nodes: Vec::new() }
    }

    /// Puts `elem` in front of everything else.
    pub fn push_front(&mut self, elem: T)
        ensures
            final(self)@ == seq![elem] + old(self)@,
    {
        proof {
            use_type_invariant(&*self);
        }
        let mut new_head = Node::new(elem);
        let List { head, mut tail, mut nodes } = std::mem::replace(self, List::new());
        let at: usize = nodes.len();
        match head {
            Some(old_head) => {
                nodes[old_head].prev = Some(at);
                new_head.next = Some(old_head);
            },
            None => {
                tail = Some(at);
            },
        }
        nodes.push(new_head);
        *self = List { head: Some(at), tail, nodes };
        proof {
            assert(final(self)@ =~= seq![elem] + old(self)@);
        }
    }
}

impl<T> List<T> {
    /// Takes the front element off, if there is one.
    pub fn pop_front(&mut self) -> (front: Option<T>)
        ensures
            old(self)@.len() == 0 ==> front is None && final(self)@ == old(self)@,
            old(self)@.len() > 0 ==> front == Some(old(self)@[0]) && final(self)@ == old(
                self)@.drop_first(),
    {
        proof {
            use_type_invariant(&*self);
        }
        let List { head, mut tail, mut nodes } = std::mem::replace(self, List::new());
        match head {
            None => {
                proof {
                    assert(final(self)@ =~= old(self)@);
                }
                None
            },
            Some(_) => {
                let ghost chain = nodes@;
                assert(chain.len() == nodes.len());
                let old_head = nodes.pop().unwrap();
                assert(old_head == chain[chain.len() - 1]);
                assert(forall|i: int| 0 <= i < nodes@.len() ==> nodes@[i] == chain[i]);
                match old_head.next {
                    Some(new_head) => {
                        nodes[new_head].prev = None;
                    },
                    None => {
                        tail = None;
                    },
                }
                *self = List { head: old_head.next, tail, nodes };
                proof {
                    assert(final(self)@ =~= old(self)@.drop_first());
                }
                Some(old_head.elem)
            },
        }
    }
}

impl<T> List<T> {
    /// Empties the deque from the front, one element at a time.
    pub fn clear(&mut self)
        ensures
            final(self)@ == Seq::<T>::empty(),
    {
        while self.pop_front().is_some()
            decreases self@.len(),
        {
        }
        proof {
            assert(self@ =~= Seq::<T>::empty());
        }
    }
}

} // verus!
