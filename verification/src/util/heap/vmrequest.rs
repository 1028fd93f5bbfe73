use vstd::prelude::*;
use crate::util::constants::LOG_BYTES_IN_MBYTE;
use crate::util::heap::layout::{
    heap_layout_64bit, heap_layout_64bit_spec, max_space_extent, max_space_extent_spec,
};

verus! {

/// How a space asks for its virtual memory.
///
/// The fraction of `RequestFraction` is an `f32`; it is held here by its IEEE-754
/// bit pattern (`f32::to_bits`), which is all that a request carries of it.
#[derive(Clone, Copy, Debug, PartialEq, Eq, Structural)]
pub enum VMRequest {
    RequestDiscontiguous,
    RequestFixed { start: usize, extent: usize, top: bool },
    RequestExtent { extent: usize, top: bool },
    RequestFraction { frac_bits: u32, top: bool },
}

/// The request of `extent` bytes at the bottom or top of the heap.
pub open spec fn extent_request(extent: int, top: bool) -> VMRequest {
    VMRequest::RequestExtent { extent: extent as usize, top }
}

impl VMRequest {
    /// The request that `discontiguous` makes.
    pub open spec fn discontiguous_spec() -> VMRequest {
        if heap_layout_64bit_spec() {
            extent_request(max_space_extent_spec(), false)
        } else {
            VMRequest::RequestDiscontiguous
        }
    }

    pub fn is_discontiguous(&self) -> (r: bool)
        ensures
            r == (*self is RequestDiscontiguous),
    {
        match self {
            VMRequest::RequestDiscontiguous => true,
            _ => false,
        }
    }

    /// The request of `MAX_SPACE_EXTENT` bytes that every space makes under the
    /// 64-bit heap layout.
    pub fn common64bit(top: bool) -> (r: Self)
        ensures
            r == extent_request(max_space_extent_spec(), top),
    {
        VMRequest::RequestExtent { extent: max_space_extent(), top }
    }

    pub fn discontiguous() -> (r: Self)
        ensures
            r == Self::discontiguous_spec(),
            heap_layout_64bit_spec() ==> r == extent_request(max_space_extent_spec(), false),
            !heap_layout_64bit_spec() ==> r == VMRequest::RequestDiscontiguous,
    {
        if heap_layout_64bit() {
            return Self::common64bit(false);
        }
        VMRequest::RequestDiscontiguous
    }

    pub fn fixed_size(mb: usize) -> (r: Self)
        ensures
            heap_layout_64bit_spec() ==> r == extent_request(max_space_extent_spec(), false),
            !heap_layout_64bit_spec() ==> r == (VMRequest::RequestExtent {
                extent: mb << LOG_BYTES_IN_MBYTE,
                top: false,
            }),
    {
        if heap_layout_64bit() {
            return Self::common64bit(false);
        }
        VMRequest::RequestExtent { extent: mb << LOG_BYTES_IN_MBYTE, top: false }
    }

    /// `frac_bits` is the bit pattern of the `f32` fraction.
    pub fn fraction(frac_bits: u32) -> (r: Self)
        ensures
            heap_layout_64bit_spec() ==> r == extent_request(max_space_extent_spec(), false),
            !heap_layout_64bit_spec() ==> r == (VMRequest::RequestFraction { frac_bits, top: false }),
    {
        if heap_layout_64bit() {
            return Self::common64bit(false);
        }
        VMRequest::RequestFraction { frac_bits, top: false }
    }

    pub fn high_fixed_size(mb: usize) -> (r: Self)
        ensures
            heap_layout_64bit_spec() ==> r == extent_request(max_space_extent_spec(), true),
            !heap_layout_64bit_spec() ==> r == (VMRequest::RequestExtent {
                extent: mb << LOG_BYTES_IN_MBYTE,
                top: true,
            }),
    {
        if heap_layout_64bit() {
            return Self::common64bit(true);
        }
        VMRequest::RequestExtent { extent: mb << LOG_BYTES_IN_MBYTE, top: true }
    }

    pub fn fixed_extent(extent: usize, top: bool) -> (r: Self)
        ensures
            heap_layout_64bit_spec() ==> r == extent_request(max_space_extent_spec(), top),
            !heap_layout_64bit_spec() ==> r == (VMRequest::RequestExtent { extent, top }),
    {
        if heap_layout_64bit() {
            return Self::common64bit(top);
        }
        VMRequest::RequestExtent { extent, top }
    }
}

/// Only the 32-bit heap layout makes discontiguous requests; under the 64-bit layout
/// every space asks for an extent of `MAX_SPACE_EXTENT` bytes.
pub proof fn lemma_discontiguous_only_on_32bit()
    ensures
        (VMRequest::discontiguous_spec() is RequestDiscontiguous) <==> !heap_layout_64bit_spec(),
        heap_layout_64bit_spec() ==> VMRequest::discontiguous_spec() == extent_request(max_space_extent_spec(), false),
{
}

} // verus!
