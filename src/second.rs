use vstd::prelude::*;

verus! {

type Link<T> = Option<Box<Node<T>>>;

/// One cell of the chain: an element and the link that owns the rest.
pub struct Node<T> {
    elem: T,
    next: Link<T>,
}

/// The elements reachable from `link`, nearest first.
spec fn link_elems<T>(link: Link<T>) -> Seq<T>
    decreases link,
{
    match link {
        None => Seq::empty(),
        Some(node) => seq![node.elem].add(link_elems(node.next)),
    }
}

impl<T> Node<T> {
    /// The element of this node followed by those after it.
    pub closed spec fn elems(self) -> Seq<T> {
        seq![self.elem].add(link_elems(self.next))
    }
}

/// The element that a pop on a stack whose contents are `s` hands out.
pub open spec fn top<T>(s: Seq<T>) -> Option<T> {
    if s.len() == 0 {
        None
    } else {
        Some(s[0])
    }
}

/// The contents of a stack whose contents were `s`, after one pop.
pub open spec fn rest<T>(s: Seq<T>) -> Seq<T> {
    if s.len() == 0 {
        s
    } else {
        s.drop_first()
    }
}

/// A stack; its view lists the elements from the head (the most recently
/// pushed) to the tail.
pub struct List<T> {
    head: Link<T>,
}

impl<T> View for List<T> {
    type V = Seq<T>;

    closed spec fn view(&self) -> Seq<T> {
        link_elems(self.head)
    }
}

impl<T> List<T> {
    /// An empty stack.
    pub fn new() -> (l: Self)
        ensures
            l@ == Seq::<T>::empty(),
    {
        List { head: None }
    }

    /// Puts `elem` on top of the stack.
    pub fn push(&mut self, elem: T)
        ensures
            final(self)@ == seq![elem].add(old(self)@),
    {
        let new_node = Node { elem, next: self.head.take() };
        self.head = Some(Box::new(new_node));
    }

    /// Removes the top of the stack and returns it; on an empty stack returns
    /// `None` and leaves the stack empty.
    pub fn pop(&mut self) -> (r: Option<T>)
        ensures
            r == top(old(self)@),
            final(self)@ == rest(old(self)@),
    {
        match self.head.take() {
            None => None,
            Some(boxed_node) => {
                let node = *boxed_node;
                self.head = node.next;
                Some(node.elem)
            },
        }
    }

    /// Turns the stack into an iterator that drains it from the head down.
    pub fn into_iter(self) -> (r: IntoIter<T>)
        ensures
            r@ == self@,
    {
        IntoIter(self)
    }

    /// A read-only traversal from the head down; the stack is left as it is.
    pub fn iter(&self) -> (r: Iter<'_, T>)
        ensures
            r@ == self@,
    {
        Iter {
            next: match &self.head {
                None => None,
                Some(boxed) => Some(&**boxed),
            },
        }
    }

    /// A traversal from the head down that may change each element in place.
    /// Once it ends, the stack holds the values finally written through the
    /// references it handed out.
    pub fn iter_mut(&mut self) -> (r: IterMut<'_, T>)
        ensures
            r@ == old(self)@,
            final(self)@ == match r.cursor() {
                None => Seq::<T>::empty(),
                Some(n) => (*final(n)).elems(),
            },
    {
        IterMut {
            next: match &mut self.head {
                None => None,
                Some(boxed) => Some(&mut **boxed),
            },
        }
    }

    /// The top of the stack, if any, without removing it.
    pub fn peek(&self) -> (r: Option<&T>)
        ensures
            r is Some <==> self@.len() > 0,
            r is Some ==> *r.unwrap() == self@[0],
    {
        match &self.head {
            None => None,
            Some(node) => Some(&node.elem),
        }
    }

    /// An exclusive reference to the top of the stack, if any; what is written
    /// through it becomes the new top, and nothing else changes.
    pub fn peek_mut(&mut self) -> (r: Option<&mut T>)
        ensures
            r is Some <==> old(self)@.len() > 0,
            r is None ==> final(self)@ == old(self)@,
            r is Some ==> *r.unwrap() == old(self)@[0] && final(self)@ == old(self)@.update(
                0,
                *final(r.unwrap()),
            ),
    {
        match &mut self.head {
            None => None,
            Some(node) => Some(&mut node.elem),
        }
    }
}

/// Drains a stack by value, handing out its elements from the head down.
pub struct IntoIter<T>(List<T>);

impl<T> View for IntoIter<T> {
    type V = Seq<T>;

    closed spec fn view(&self) -> Seq<T> {
        self.0@
    }
}

impl<T> IntoIter<T> {
    /// Hands out what a pop on the wrapped stack would.
    pub fn next(&mut self) -> (r: Option<T>)
        ensures
            r == top(old(self)@),
            final(self)@ == rest(old(self)@),
    {
        self.0.pop()
    }
}

/// Walks a stack from the head down through shared references.
pub struct Iter<'a, T> {
    next: Option<&'a Node<T>>,
}

impl<'a, T> View for Iter<'a, T> {
    type V = Seq<T>;

    /// The elements not yet handed out, in the order they will come.
    closed spec fn view(&self) -> Seq<T> {
        match self.next {
            None => Seq::empty(),
            Some(node) => node.elems(),
        }
    }
}

impl<'a, T> Iter<'a, T> {
    /// The next element, or `None` once the tail has been passed.
    pub fn next(&mut self) -> (r: Option<&'a T>)
        ensures
            r is Some <==> old(self)@.len() > 0,
            r is Some ==> *r.unwrap() == old(self)@[0],
            final(self)@ == rest(old(self)@),
    {
        match self.next {
            None => None,
            Some(node) => {
                self.next = match &node.next {
                    None => None,
                    Some(boxed) => Some(&**boxed),
                };
                Some(&node.elem)
            },
        }
    }
}

/// Walks a stack from the head down through exclusive references; the
/// elements may be changed in place, the chain may not.
pub struct IterMut<'a, T> {
    /// The node that the next step hands out; callers' proofs read it to tie
    /// the stack to the iterator once it is dropped.
    pub next: Option<&'a mut Node<T>>,
}

impl<'a, T> View for IterMut<'a, T> {
    type V = Seq<T>;

    /// The current values of the elements not yet handed out.
    open spec fn view(&self) -> Seq<T> {
        match self.next {
            None => Seq::empty(),
            Some(node) => (*node).elems(),
        }
    }
}

impl<'a, T> IterMut<'a, T> {
    /// The node that the next step hands out, if any.
    pub open spec fn cursor(self) -> Option<&'a mut Node<T>> {
        self.next
    }

    /// The next element, or `None` once the tail has been passed. The value
    /// finally written through the reference takes the element's place.
    pub fn next(&mut self) -> (r: Option<&'a mut T>)
        ensures
            r is Some <==> old(self)@.len() > 0,
            r is None ==> final(self)@ == old(self)@ && old(self).cursor() is None,
            r is Some ==> {
                &&& *r.unwrap() == old(self)@[0]
                &&& final(self)@ == old(self)@.drop_first()
                &&& old(self).cursor() is Some
                &&& (*final(old(self).cursor().unwrap())).elems() == seq![*final(r.unwrap())].add(
                    match final(self).cursor() {
                        None => Seq::<T>::empty(),
                        Some(n) => (*final(n)).elems(),
                    },
                )
            },
    {
        match self.next.take() {
            None => None,
            Some(node) => {
                self.next = match &mut node.next {
                    None => None,
                    Some(boxed) => Some(&mut **boxed),
                };
                Some(&mut node.elem)
            },
        }
    }
}

impl<T> Drop for List<T> {
    /// Frees the nodes one at a time, so that dropping a long stack takes
    /// constant stack depth.
    fn drop(&mut self)
        ensures
            final(self)@ == Seq::<T>::empty(),
        opens_invariants none
        no_unwind
    {
        let mut cur_link = None;
        std::mem::swap(&mut self.head, &mut cur_link);
        loop
            decreases link_elems(cur_link).len(),
        {
            match cur_link {
                None => break,
                Some(boxed_node) => {
                    let node = *boxed_node;
                    cur_link = node.next;
                },
            }
        }
    }
}

} // verus!
