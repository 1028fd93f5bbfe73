use vstd::prelude::*;
use crate::util::constants::BYTES_IN_PAGE;

verus! {

/// The number of pages that `bytes` bytes take, a part page counting as a page.
pub open spec fn bytes_to_pages_spec(bytes: int) -> int {
    bytes / (BYTES_IN_PAGE as int) + if bytes % (BYTES_IN_PAGE as int) == 0 {
        0int
    } else {
        1int
    }
}

pub fn bytes_to_pages(bytes: usize) -> (r: usize)
    ensures
        r == bytes_to_pages_spec(bytes as int),
{
    bytes / BYTES_IN_PAGE + if bytes % BYTES_IN_PAGE == 0 {
        0
    } else {
        1
    }
}

} // verus!
