use vstd::prelude::*;
use crate::second::{top, rest};

verus! {

struct Node {
    elem: i32,
    next: Link,
}

enum Link {
    Empty,
    More(Box<Node>),
}

impl Link {
    /// The elements reachable from this link, nearest first.
    spec fn elems(self) -> Seq<i32>
        decreases self,
    {
        match self {
            Link::Empty => Seq::empty(),
            Link::More(node) => seq![node.elem].add(node.next.elems()),
        }
    }

    /// Moves the link out, leaving `Empty` in its place.
    fn take(&mut self) -> (r: Link)
        ensures
            r == *old(self),
            *final(self) == Link::Empty,
    {
        let mut r = Link::Empty;
        std::mem::swap(self, &mut r);
        r
    }
}

/// A stack of `i32` values; the head is the most recently pushed one.
pub struct List {
    head: Link,
}

impl View for List {
    type V = Seq<i32>;

    closed spec fn view(&self) -> Seq<i32> {
        self.head.elems()
    }
}

impl List {
    /// An empty stack.
    pub fn new() -> (l: Self)
        ensures
            l@ == Seq::<i32>::empty(),
    {
        List { head: Link::Empty }
    }

    /// Puts `elem` on top of the stack.
    pub fn push(&mut self, elem: i32)
        ensures
            final(self)@ == seq![elem].add(old(self)@),
    {
        let new_node = Node { elem, next: self.head.take() };
        self.head = Link::More(Box::new(new_node));
    }

    /// Removes the top of the stack and returns it; `None` on an empty stack,
    /// which is then left as it was.
    pub fn pop(&mut self) -> (r: Option<i32>)
        ensures
            r == top(old(self)@),
            final(self)@ == rest(old(self)@),
    {
        match self.head.take() {
            Link::Empty => None,
            Link::More(node) => {
                let node = *node;
                self.head = node.next;
                Some(node.elem)
            },
        }
    }
}

impl Drop for List {
    /// Frees the nodes one at a time, so that dropping a long stack takes
    /// constant stack depth.
    fn drop(&mut self)
        ensures
            final(self)@ == Seq::<i32>::empty(),
        opens_invariants none
        no_unwind
    {
        let mut cur_link = Link::Empty;
        std::mem::swap(&mut self.head, &mut cur_link);
        loop
            decreases cur_link.elems().len(),
        {
            match cur_link {
                Link::Empty => break,
                Link::More(boxed_node) => {
                    let node = *boxed_node;
                    cur_link = node.next;
                },
            }
        }
    }
}

} // verus!
