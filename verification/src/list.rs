//! The list value, its node representation, and the cursor over it.

use std::sync::Arc;
use vstd::prelude::*;

verus! {

/// One link of a chain: an element followed by a shared reference to the rest
/// of the chain, or the empty terminator. Nodes are immutable once created;
/// arbitrarily many lists may hold the same node.
#[derive(Debug, Hash)]
enum Node<T> {
    Cons(T, Arc<Node<T>>),
    Nil,
}

impl<T> Node<T> {
    /// The elements reachable from this node, head first.
    spec fn elems(self) -> Seq<T>
        decreases self,
    {
        match self {
            Node::Cons(v, rest) => seq![v] + rest.elems(),
            Node::Nil => Seq::empty(),
        }
    }
}

/// A persistent list: a shared reference to an immutable node chain plus a
/// cached length. `cons` and `tail` build a new list in constant time and
/// leave every existing list usable; the suffix nodes are shared, not copied.
///
/// The view of a list is the sequence of its elements, head first.
///
/// The derived hash feeds the node chain to the hasher structurally, element
/// by element in head-to-tail order, so two equal lists always hash alike.
#[derive(Debug, Hash)]
pub struct List<T> {
    node: Arc<Node<T>>,
    length: usize,
}

impl<T> View for List<T> {
    type V = Seq<T>;

    closed spec fn view(&self) -> Seq<T> {
        self.node.elems()
    }
}

impl<T> List<T> {
    /// The cached length always equals the number of elements reachable from
    /// the root node; it is carried forward arithmetically, never recounted.
    #[verifier::type_invariant]
    spec fn length_matches(self) -> bool {
        self.length == self@.len()
    }

    /// The empty list.
    pub fn new() -> (r: List<T>)
        ensures
            r@ == Seq::<T>::empty(),
    {
        List { node: Arc::new(Node::Nil), length: 0 }
    }

    /// The first element, or `None` when the list is empty.
    pub fn head(&self) -> (r: Option<&T>)
        ensures
            match r {
                Some(v) => self@.len() > 0 && *v == self@[0],
                None => self@.len() == 0,
            },
    {
        match &*self.node {
            Node::Cons(v, _) => Some(v),
            Node::Nil => None,
        }
    }

    /// Everything after the first element, or `None` when the list is empty.
    /// The returned list shares the suffix nodes with `self`; no node is
    /// created or copied.
    pub fn tail(&self) -> (r: Option<List<T>>)
        ensures
            match r {
                Some(l) => self@.len() > 0 && l@ == self@.drop_first(),
                None => self@.len() == 0,
            },
    {
        proof {
            use_type_invariant(self);
        }
        match &*self.node {
            Node::Cons(_, rest) => {
                proof {
                    assert(rest.elems() =~= self@.drop_first());
                }
                Some(List { node: rest.clone(), length: self.length - 1 })
            },
            Node::Nil => None,
        }
    }

    /// A new list with `v` prepended. The receiver is unchanged and remains
    /// usable; the new list shares all of the receiver's nodes.
    pub fn cons(&self, v: T) -> (r: List<T>)
        requires
            self@.len() < usize::MAX,
        ensures
            r@ == seq![v] + self@,
    {
        proof {
            use_type_invariant(self);
        }
        let r = List { node: Arc::new(Node::Cons(v, self.node.clone())), length: self.length + 1 };
        proof {
            assert(r@ =~= seq![v] + self@);
        }
        r
    }

    /// The number of elements, read from the cache in constant time.
    pub fn len(&self) -> (r: usize)
        ensures
            r == self@.len(),
    {
        proof {
            use_type_invariant(self);
        }
        self.length
    }

    /// Whether the list has no elements.
    pub fn is_empty(&self) -> (r: bool)
        ensures
            r == (self@.len() == 0),
    {
        self.len() == 0
    }

    /// A cursor over the elements, head first.
    pub fn iter(&self) -> (r: Iter<'_, T>)
        ensures
            r@ == self@,
    {
        Iter::new(self)
    }

    /// Builds a list whose head-to-tail order equals the order of `v`.
    /// The source is already a buffer, so the elements are prepended back to
    /// front, each consed exactly once.
    pub fn from_vec(v: Vec<T>) -> (r: List<T>)
        ensures
            r@ == v@,
    {
        let ghost all = v@;
        let mut rest = v;
        let n = rest.len();
        let mut r = List::new();
        proof {
            assert(rest@ =~= all.subrange(0, rest@.len() as int));
            assert(r@ =~= all.subrange(rest@.len() as int, all.len() as int));
        }
        while rest.len() > 0
            invariant
                all.len() == n,
                rest@.len() <= all.len(),
                rest@ == all.subrange(0, rest@.len() as int),
                r@ == all.subrange(rest@.len() as int, all.len() as int),
            decreases rest@.len(),
        {
            let ghost prev = rest@;
            let e = rest.pop().unwrap();
            proof {
                assert(e == prev[prev.len() - 1]);
                assert(rest@ =~= all.subrange(0, rest@.len() as int));
            }
            r = r.cons(e);
            proof {
                assert(r@ =~= all.subrange(rest@.len() as int, all.len() as int));
            }
        }
        proof {
            assert(r@ =~= all);
        }
        r
    }
}

impl<T> Clone for List<T> {
    /// A constant-time copy: the clone shares the node chain with the
    /// original and carries the same cached length; element data is never
    /// touched.
    fn clone(&self) -> (r: Self)
        ensures
            r == *self,
    {
        proof {
            use_type_invariant(self);
        }
        List { node: self.node.clone(), length: self.length }
    }
}

impl<T> Default for List<T> {
    /// The empty list.
    fn default() -> (r: Self)
        ensures
            r@ == Seq::<T>::empty(),
    {
        List::new()
    }
}

/// A read-only cursor over a node chain. It borrows the nodes without owning
/// them and produces the elements head to tail; its view is the sequence of
/// elements still to be produced.
pub struct Iter<'a, T> {
    next: &'a Node<T>,
    length: usize,
}

impl<'a, T> View for Iter<'a, T> {
    type V = Seq<T>;

    closed spec fn view(&self) -> Seq<T> {
        self.next.elems()
    }
}

impl<'a, T> Iter<'a, T> {
    /// The remaining count always equals the number of elements still to be
    /// produced.
    #[verifier::type_invariant]
    spec fn length_matches(self) -> bool {
        self.length == self@.len()
    }

    fn new(list: &'a List<T>) -> (r: Iter<'a, T>)
        ensures
            r@ == list@,
    {
        proof {
            use_type_invariant(list);
        }
        Iter { next: &*list.node, length: list.length }
    }

    /// The next element, or `None` once the cursor is exhausted. An exhausted
    /// cursor stays exhausted: every later call returns `None` again.
    pub fn next(&mut self) -> (r: Option<&'a T>)
        ensures
            match r {
                Some(v) => old(self)@.len() > 0 && *v == old(self)@[0] && final(self)@ == old(
                    self,
                )@.drop_first(),
                None => old(self)@.len() == 0 && final(self)@ == old(self)@,
            },
    {
        proof {
            use_type_invariant(&*self);
        }
        let cur = self.next;
        match cur {
            Node::Cons(v, rest) => {
                proof {
                    assert(cur.elems() =~= seq![cur.elems()[0]] + rest.elems());
                    assert(rest.elems() =~= cur.elems().drop_first());
                }
                *self = Iter { next: &**rest, length: self.length - 1 };
                Some(v)
            },
            Node::Nil => None,
        }
    }

    /// The exact number of elements still to be produced, as a lower and an
    /// upper bound.
    pub fn size_hint(&self) -> (r: (usize, Option<usize>))
        ensures
            r.0 == self@.len(),
            r.1 == Some(r.0),
    {
        proof {
            use_type_invariant(self);
        }
        (self.length, Some(self.length))
    }
}

} // verus!
