//! Emitter options: an option of a non-boolean type carries one global value.

use vstd::prelude::*;

verus! {

/// An option of non-boolean type `T`.
#[derive(Debug, Default, PartialEq)]
pub struct Arg<T> {
    global_value: T,
}

impl<T> Arg<T> {
    /// The value this option holds.
    pub closed spec fn value(&self) -> T {
        self.global_value
    }

    pub fn get(&self) -> (r: &T)
        ensures
            *r == self.value(),
    {
        &self.global_value
    }

    pub fn get_mut(&mut self) -> (r: &mut T)
        ensures
            *r == old(self).value(),
            final(self).value() == *final(r),
    {
        &mut self.global_value
    }

    pub fn new(global_value: T) -> (r: Arg<T>)
        ensures
            r.value() == global_value,
    {
        Arg { global_value }
    }
}

/// The default bound on the number of array elements built on the stack.
pub fn max_array_elem_size_on_the_stack() -> (r: Arg<isize>)
    ensures
        r.value() == 64,
{
    Arg::new(64)
}

} // verus!
