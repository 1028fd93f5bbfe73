use vstd::prelude::*;

verus! {

/// The plan moves objects.
pub const MOVES_OBJECTS: bool = true;

/// The bits of an object header that the plan uses.
pub const GC_HEADER_BITS: usize = 2;

/// The header words that the plan adds to an object.
pub const GC_HEADER_WORDS: usize = 0;

/// The number of specialised scanning routines.
pub const NUM_SPECIALIZED_SCANS: usize = 1;

} // verus!
