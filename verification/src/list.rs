use vstd::prelude::*;

verus! {

/// One link in the chain: a value and exclusive ownership of the successor
/// node, or none at the chain's end.
pub struct Node<T> {
    value: T,
    next: Option<Box<Node<T>>>,
}

/// A singly linked list: the owning handle of the first node, or none when
/// the list is empty.
pub struct List<T> {
    root: Option<Box<Node<T>>>,
}

/// A borrowed forward cursor over a list's chain. It holds a reference to
/// the node it is positioned at, or none once it is exhausted.
pub struct Iter<'a, T> {
    node: Option<&'a Node<T>>,
}

impl<T> Node<T> {
    /// The elements of an optional chain, in traversal order.
    pub closed spec fn optional_as_seq(node_opt: Option<Box<Node<T>>>) -> Seq<T>
        decreases node_opt,
    {
        match node_opt {
            Option::None => Seq::empty(),
            Option::Some(node) => node.as_seq(),
        }
    }

    /// The elements reachable from this node, in traversal order.
    pub closed spec fn as_seq(self) -> Seq<T>
        decreases self,
    {
        seq![self.value] + Node::<T>::optional_as_seq(self.next)
    }
}

impl<T> View for List<T> {
    type V = Seq<T>;

    /// A list abstracts to the sequence of its elements in traversal order.
    closed spec fn view(&self) -> Seq<T> {
        Node::<T>::optional_as_seq(self.root)
    }
}

impl<'a, T> View for Iter<'a, T> {
    type V = Seq<T>;

    /// A cursor abstracts to the sequence of elements it has yet to yield.
    closed spec fn view(&self) -> Seq<T> {
        match self.node {
            Option::None => Seq::empty(),
            Option::Some(node) => node.as_seq(),
        }
    }
}

impl<T> List<T> {
    /// Returns the empty list.
    pub fn new() -> (list: List<T>)
        ensures
            list@ == Seq::<T>::empty(),
    {
        List { root: None }
    }

    /// Returns a cursor positioned at the root, so that repeated calls of
    /// `next` yield every element of the list in traversal order. The list
    /// is only borrowed: iterating does not change it, and a fresh cursor
    /// starts over at the root.
    pub fn iter(&self) -> (it: Iter<'_, T>)
        ensures
            it@ == self@,
    {
        match &self.root {
            None => Iter { node: None },
            Some(node) => Iter { node: Some(&**node) },
        }
    }

    /// Builds a list whose traversal order equals the order of `values`.
    /// The chain is assembled back to front: each node's successor must be
    /// fully built before the node that owns it.
    pub fn from_vec(values: Vec<T>) -> (list: List<T>)
        ensures
            list@ == values@,
            list@.len() == values@.len(),
    {
        let ghost all = values@;
        let mut values = values;
        let mut root: Option<Box<Node<T>>> = None;
        proof {
            assert(all =~= values@ + Node::<T>::optional_as_seq(root));
        }
        while values.len() > 0
            invariant
                all == values@ + Node::<T>::optional_as_seq(root),
            decreases values.len(),
        {
            let value = values.pop().unwrap();
            let node = Node { value, next: root };
            root = Some(Box::new(node));
            proof {
                assert(all =~= values@ + Node::<T>::optional_as_seq(root));
            }
        }
        let list = List { root };
        proof {
            assert(list@ =~= all);
        }
        list
    }
}

impl<'a, T> Iter<'a, T> {
    /// Yields a reference to the next element in traversal order, or `None`
    /// once the chain is exhausted. Exhaustion is sticky: further calls
    /// keep returning `None`.
    pub fn next(&mut self) -> (r: Option<&'a T>)
        ensures
            old(self)@.len() == 0 ==> (r is None && final(self)@ == old(self)@),
            old(self)@.len() > 0 ==> (r matches Some(value) && *value == old(self)@[0]
                && final(self)@ == old(self)@.skip(1)),
    {
        match self.node {
            None => None,
            Some(node) => {
                self.node = match &node.next {
                    None => None,
                    Some(next) => Some(&**next),
                };
                proof {
                    assert(self@ =~= old(self)@.skip(1));
                }
                Some(&node.value)
            }
        }
    }
}

} // verus!
