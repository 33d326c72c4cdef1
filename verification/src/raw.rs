//! Fixed-size storage that the runtime's native objects occupy inside a frame.
//!
//! The engine reserves these words and hands their location to the runtime;
//! it never interprets what the runtime keeps in them.

use vstd::prelude::*;

verus! {

/// Storage of a native handle scope: three words.
#[derive(Clone, Copy, Debug)]
pub struct HandleScope(pub [usize; 3]);

/// A pointer-sized cell: the raw value of a handle.
#[derive(Clone, Copy, Debug, PartialEq, Eq, Structural)]
pub struct Address(pub usize);

/// Storage of a native try-catch block: six words.
#[derive(Clone, Copy, Debug)]
pub struct TryCatch(pub [usize; 6]);

impl HandleScope {
    /// The words of the storage, in order.
    pub open spec fn view(&self) -> Seq<usize> {
        self.0@
    }

    /// Storage in which no native object has been constructed yet.
    pub open spec fn spec_zeroed() -> Self {
        HandleScope([0, 0, 0])
    }

    /// Storage in which no native object has been constructed yet.
    pub fn zeroed() -> (raw: Self)
        ensures
            raw == Self::spec_zeroed(),
    {
        HandleScope([0, 0, 0])
    }
}

impl TryCatch {
    /// The words of the storage, in order.
    pub open spec fn view(&self) -> Seq<usize> {
        self.0@
    }

    /// Storage in which no native object has been constructed yet.
    pub open spec fn spec_zeroed() -> Self {
        TryCatch([0, 0, 0, 0, 0, 0])
    }

    /// Storage in which no native object has been constructed yet.
    pub fn zeroed() -> (raw: Self)
        ensures
            raw == Self::spec_zeroed(),
    {
        TryCatch([0, 0, 0, 0, 0, 0])
    }
}

} // verus!
