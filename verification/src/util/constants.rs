use vstd::prelude::*;

verus! {

/// log2 of the number of bytes in a megabyte.
pub const LOG_BYTES_IN_MBYTE: usize = 20;

/// log2 of the number of bytes in a page.
pub const LOG_BYTES_IN_PAGE: usize = 12;

/// Number of bytes in a page.
pub const BYTES_IN_PAGE: usize = 4096;

} // verus!
