//! A pointer-sized handle to a value owned by the host runtime's heap; never null.

use vstd::prelude::*;

verus! {

#[derive(Clone, Copy, Hash, PartialEq, Eq)]
pub struct UnsafeOcamlPtr(usize);

impl UnsafeOcamlPtr {
    #[verifier::type_invariant]
    spec fn non_null(&self) -> bool {
        self.0 != 0
    }

    /// The address held.
    pub closed spec fn addr(&self) -> usize {
        self.0
    }

    pub fn new(ptr: usize) -> (r: Self)
        requires
            ptr != 0,
        ensures
            r.addr() == ptr,
    {
        UnsafeOcamlPtr(ptr)
    }

    pub fn as_usize(self) -> (r: usize)
        ensures
            r == self.addr(),
            r != 0,
    {
        proof { use_type_invariant(&self); }
        self.0
    }
}

} // verus!
