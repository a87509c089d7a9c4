//! A stack of `i32` values built from boxed nodes.

use vstd::prelude::*;

verus! {

/// A cons list whose first cell lives inline and whose empty tail still costs
/// an allocation; kept as a counterexample to the layout used by [`List`].
pub enum ABadLayoutList {
    Empty,
    Elem(i32, Box<ABadLayoutList>),
}

/// A stack of `i32`; its view lists the elements from the top down.
pub struct List {
    head: Link,
}

struct Node {
    elem: i32,
    next: Link,
}

enum Link {
    Empty,
    More(Box<Node>),
}

impl Link {
    spec fn elems(self) -> Seq<i32>
        decreases self,
    {
        match self {
            Link::Empty => Seq::empty(),
            Link::More(node) => seq![node.elem] + node.next.elems(),
        }
    }
}

impl View for List {
    type V = Seq<i32>;

    closed spec fn view(&self) -> Seq<i32> {
        self.head.elems()
    }
}

impl List {
    /// An empty stack.
    pub fn new() -> (list: Self)
        ensures
            list@ == Seq::<i32>::empty(),
    {
        List { head: Link::Empty }
    }

    /// Puts `elem` on top.
    pub fn push(&mut self, elem: i32)
        ensures
            final(self)@ == seq![elem] + old(self)@,
    {
        let new_node = Box::new(
            Node { elem: elem, next: std::mem::replace(&mut self.head, Link::Empty) },
        );
        self.head = Link::More(new_node);
    }

    /// Takes the top element off, if there is one.
    pub fn pop(&mut self) -> (top: Option<i32>)
        ensures
            old(self)@.len() == 0 ==> top is None && final(self)@ == old(self)@,
            old(self)@.len() > 0 ==> top == Some(old(self)@[0]) && final(self)@ == old(self)@.drop_first(),
    {
        match std::mem::replace(&mut self.head, Link::Empty) {
            Link::Empty => None,
            Link::More(node) => {
                let node = *node;
                self.head = node.next;
                proof {
                    assert(old(self)@.drop_first() =~= node.next.elems());
                }
                Some(node.elem)
            },
        }
    }
}

impl List {
    /// Empties the stack by unlinking the nodes one at a time, so that
    /// releasing a long list never recurses through every `Box`.
    pub fn clear(&mut self)
        ensures
            final(self)@ == Seq::<i32>::empty(),
    {
        let mut cur_link = std::mem::replace(&mut self.head, Link::Empty);
        loop
            invariant
                self.head is Empty,
            decreases cur_link,
        {
            match cur_link {
                Link::Empty => {
                    break ;
                },
                Link::More(mut boxed_node) => {
                    cur_link = std::mem::replace(&mut boxed_node.next, Link::Empty);
                },
            }
        }
    }
}

} // verus!
