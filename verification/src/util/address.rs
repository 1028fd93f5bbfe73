use vstd::prelude::*;

verus! {

/// A machine address.
pub type Address = usize;

/// A reference to a heap object: the object's address, or 0 for the null reference.
#[derive(Clone, Copy, Debug, PartialEq, Eq, Structural)]
pub struct ObjectReference(pub usize);

impl ObjectReference {
    pub fn null() -> (r: Self)
        ensures
            r.0 == 0,
    {
        ObjectReference(0)
    }

    pub fn is_null(&self) -> (r: bool)
        ensures
            r == (self.0 == 0),
    {
        self.0 == 0
    }

    pub fn to_address(&self) -> (r: Address)
        ensures
            r == self.0,
    {
        self.0
    }
}

/// An opaque handle of a thread of the virtual machine.
#[derive(Clone, Copy, Debug, PartialEq, Eq, Structural)]
pub struct OpaquePointer(pub usize);

impl OpaquePointer {
    /// The handle that no thread has.
    pub fn uninitialized() -> (r: Self)
        ensures
            r.0 == 0,
    {
        OpaquePointer(0)
    }
}

} // verus!
