//! A balanced binary search tree of ordered values.

use vstd::prelude::*;

verus! {

#[derive(Debug)]
enum SetImpl<T: Ord> {
    Empty,
    Node { l: Box<SetImpl<T>>, v: T, r: Box<SetImpl<T>>, h: usize },
}

/// The values held in a tree.
spec fn elements<T: Ord>(t: SetImpl<T>) -> vstd::set::Set<T>
    decreases t,
{
    match t {
        SetImpl::Empty => vstd::set::Set::empty(),
        SetImpl::Node { l, v, r, .. } => elements(*l).union(elements(*r)).insert(v),
    }
}

/// A set of ordered values.
#[derive(Debug)]
pub struct OrdSet<T: Ord>(SetImpl<T>);

impl<T: Ord> View for OrdSet<T> {
    type V = vstd::set::Set<T>;

    closed spec fn view(&self) -> vstd::set::Set<T> {
        elements(self.0)
    }
}

impl<T: Ord> OrdSet<T> {
    pub fn empty() -> (r: Self)
        ensures
            r@ == vstd::set::Set::<T>::empty(),
    {
        OrdSet(SetImpl::Empty)
    }
}

} // verus!
