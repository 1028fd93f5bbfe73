use vstd::prelude::*;

verus! {

/// log2 of the largest extent a single space may cover under the 64-bit heap layout.
pub const LOG_SPACE_EXTENT: usize = 41;

/// log2 of the largest extent a single space may cover under the 32-bit heap layout.
pub const LOG_SPACE_EXTENT_32BIT: usize = 31;

/// The largest extent a single space may cover: `1 << LOG_SPACE_EXTENT` under the
/// 64-bit heap layout, `1 << LOG_SPACE_EXTENT_32BIT` under the 32-bit one.
pub open spec fn max_space_extent_spec() -> int {
    if heap_layout_64bit_spec() {
        0x200_0000_0000
    } else {
        0x8000_0000
    }
}

/// Whether the 32-bit heap layout is in use: it is on targets with 32-bit pointers.
pub open spec fn heap_layout_32bit_spec() -> bool {
    usize::BITS == 32
}

/// Whether the 64-bit heap layout is in use.
pub open spec fn heap_layout_64bit_spec() -> bool {
    !heap_layout_32bit_spec()
}

pub fn heap_layout_32bit() -> (r: bool)
    ensures
        r == heap_layout_32bit_spec(),
{
    usize::BITS == 32
}

pub fn heap_layout_64bit() -> (r: bool)
    ensures
        r == heap_layout_64bit_spec(),
{
    !heap_layout_32bit()
}

/// `MAX_SPACE_EXTENT` of the heap layout in use.
pub fn max_space_extent() -> (r: usize)
    ensures
        r == max_space_extent_spec(),
{
    if heap_layout_64bit() {
        let extent: u64 = 1u64 << (LOG_SPACE_EXTENT as u64);
        assert(extent == 0x200_0000_0000) by (bit_vector)
            requires
                extent == 1u64 << 41u64,
        ;
        extent as usize
    } else {
        let extent: u32 = 1u32 << (LOG_SPACE_EXTENT_32BIT as u32);
        assert(extent == 0x8000_0000) by (bit_vector)
            requires
                extent == 1u32 << 31u32,
        ;
        extent as usize
    }
}


/// The lowest address of the heap.
pub open spec fn heap_start_spec() -> int {
    if heap_layout_64bit_spec() {
        0x0000_0200_0000_0000
    } else {
        0x6000_0000
    }
}

/// The address just above the heap.
pub open spec fn heap_end_spec() -> int {
    if heap_layout_64bit_spec() {
        0x0000_2200_0000_0000
    } else {
        0xb000_0000
    }
}

pub fn heap_start() -> (r: usize)
    ensures
        r == heap_start_spec(),
{
    if heap_layout_64bit() {
        let start: u64 = 0x0000_0200_0000_0000u64;
        start as usize
    } else {
        0x6000_0000usize
    }
}

pub fn heap_end() -> (r: usize)
    ensures
        r == heap_end_spec(),
{
    if heap_layout_64bit() {
        let end: u64 = 0x0000_2200_0000_0000u64;
        end as usize
    } else {
        0xb000_0000usize
    }
}

} // verus!
