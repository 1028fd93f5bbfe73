use vstd::prelude::*;
use crate::policy::space::{acquire_spec, SpaceCommon};
use crate::util::address::{Address, OpaquePointer};

verus! {

/// The bytes that a bump allocator takes from its space at a time.
pub const BLOCK_SIZE: usize = 32768;

/// A bump-pointer allocator: it hands out the bytes between `cursor` and `limit`,
/// and takes a fresh block from its space when they do not suffice.
pub struct BumpAllocator {
    pub tls: OpaquePointer,
    pub space: Option<usize>,
    pub cursor: Address,
    pub limit: Address,
}

/// The first address at or above `region` that, plus `offset`, is a multiple of
/// `align`.
pub open spec fn align_allocation_spec(region: int, align: int, offset: int) -> int {
    region + (align - (region + offset) % align) % align
}

/// Whether `size` bytes aligned as asked fit between `cursor` and `limit`.
pub open spec fn fits(cursor: int, limit: int, size: int, align: int, offset: int) -> bool {
    align_allocation_spec(cursor, align, offset) + size <= limit
}

/// The pages in a block.
pub const PAGES_IN_BLOCK: usize = 8;

/// The number of blocks that `size` bytes take.
pub open spec fn blocks_for(size: int) -> int {
    (size + BLOCK_SIZE - 1) / (BLOCK_SIZE as int)
}

/// Allocation from the block that the allocator holds, when the bytes fit there.
pub open spec fn bump_fast_spec(a: BumpAllocator, size: int, align: int, offset: int) -> (
    BumpAllocator,
    Address,
) {
    let r = align_allocation_spec(a.cursor as int, align, offset);
    (BumpAllocator { cursor: (r + size) as usize, ..a }, r as usize)
}

/// The allocator, the space and the address that allocating `size` bytes gives:
/// the address is 0 where neither the current block nor a fresh block from the
/// space holds them.
pub open spec fn bump_alloc_spec(
    a: BumpAllocator,
    s: SpaceCommon,
    size: int,
    align: int,
    offset: int,
) -> (BumpAllocator, SpaceCommon, Address) {
    if fits(a.cursor as int, a.limit as int, size, align, offset) {
        let (a2, r) = bump_fast_spec(a, size, align, offset);
        (a2, s, r)
    } else {
        let block = blocks_for(size) * BLOCK_SIZE;
        let (s2, start) = acquire_spec(s, blocks_for(size) * PAGES_IN_BLOCK);
        if block > usize::MAX {
            (a, s, 0)
        } else if start == 0 {
            (a, s2, 0)
        } else {
            let a2 = BumpAllocator { cursor: start, limit: (start + block) as usize, ..a };
            if fits(start as int, start + block, size, align, offset) {
                let (a3, r) = bump_fast_spec(a2, size, align, offset);
                (a3, s2, r)
            } else {
                (a2, s2, 0)
            }
        }
    }
}

/// The aligned address lies at most `align - 1` bytes above `region`, and plus
/// `offset` it is a multiple of `align`.
pub proof fn lemma_align_allocation(region: int, align: int, offset: int)
    requires
        align > 0,
        region >= 0,
        offset >= 0,
    ensures
        region <= align_allocation_spec(region, align, offset) < region + align,
        (align_allocation_spec(region, align, offset) + offset) % align == 0,
{
    let m = (region + offset) % align;
    let d = (align - m) % align;
    assert(0 <= m < align) by (nonlinear_arith)
        requires
            align > 0,
            m == (region + offset) % align,
    ;
    assert(0 <= d < align) by (nonlinear_arith)
        requires
            align > 0,
            0 <= m < align,
            d == (align - m) % align,
    ;
    assert((region + d + offset) % align == 0) by (nonlinear_arith)
        requires
            align > 0,
            0 <= m < align,
            m == (region + offset) % align,
            d == (align - m) % align,
    ;
}

/// An allocation that succeeds lies in the space the allocator is bound to and is
/// aligned as asked, and the allocator stays bound to the space.
pub proof fn lemma_alloc_in_space(a: BumpAllocator, s: SpaceCommon, size: int, align: int, offset: int)
    requires
        a.bound_to(s),
        s.wf(),
        size > 0,
        align > 0,
        offset >= 0,
    ensures
        ({
            let (a2, s2, r) = bump_alloc_spec(a, s, size, align, offset);
            &&& a2.bound_to(s2)
            &&& s2.index == s.index && s2.start == s.start && s2.extent == s.extent
            &&& s2.contiguous == s.contiguous && s2.name == s.name
            &&& r != 0 ==> s.contains(r as int) && r + size <= s.start + s.extent && (r + offset) % align == 0
        }),
{
    lemma_align_allocation(a.cursor as int, align, offset);
    if !fits(a.cursor as int, a.limit as int, size, align, offset) {
        let block = blocks_for(size) * BLOCK_SIZE;
        let (s2, start) = acquire_spec(s, blocks_for(size) * PAGES_IN_BLOCK);
        if block <= usize::MAX && start != 0 {
            lemma_align_allocation(start as int, align, offset);
        }
    }
}

impl BumpAllocator {
    /// The allocator is bound to `s`, and the block it holds, if any, lies in the
    /// part of `s` that has been acquired.
    pub open spec fn bound_to(&self, s: SpaceCommon) -> bool {
        &&& self.space == Some(s.index)
        &&& self.cursor <= self.limit
        &&& self.limit == 0 ==> self.cursor == 0
        &&& self.limit != 0 ==> s.contiguous && s.start <= self.cursor && self.limit <= s.cursor
    }

    pub open spec fn wf(&self) -> bool {
        &&& self.cursor <= self.limit
        &&& self.limit == 0 ==> self.cursor == 0
    }

    pub fn new(tls: OpaquePointer, space: Option<usize>) -> (r: Self)
        ensures
            r == (BumpAllocator { tls, space, cursor: 0, limit: 0 }),
            r.wf(),
    {
        BumpAllocator { tls, space, cursor: 0, limit: 0 }
    }

    /// Drops the current block.
    pub fn reset(&mut self)
        ensures
            *final(self) == (BumpAllocator { cursor: 0, limit: 0, ..*old(self) }),
    {
        self.cursor = 0;
        self.limit = 0;
    }

    /// Drops the current block and binds the allocator to `space`.
    pub fn rebind(&mut self, space: Option<usize>)
        ensures
            *final(self) == (BumpAllocator { cursor: 0, limit: 0, space, ..*old(self) }),
    {
        self.reset();
        self.space = space;
    }

    /// The first address at or above `region` at which an object of alignment
    /// `align` may start so that its address plus `offset` is aligned.
    pub fn align_allocation(region: Address, align: usize, offset: isize) -> (r: u128)
        requires
            align > 0,
            offset >= 0,
        ensures
            r == align_allocation_spec(region as int, align as int, offset as int),
    {
        let sum: u128 = region as u128 + offset as u128;
        let delta: u128 = (align as u128 - sum % (align as u128)) % (align as u128);
        region as u128 + delta
    }

    fn alloc_in_block(&mut self, size: usize, align: usize, offset: isize) -> (r: Option<Address>)
        requires
            align > 0,
            offset >= 0,
            old(self).wf(),
        ensures
            fits(old(self).cursor as int, old(self).limit as int, size as int, align as int, offset as int)
                ==> r == Some(bump_fast_spec(*old(self), size as int, align as int, offset as int).1)
                && *final(self) == bump_fast_spec(*old(self), size as int, align as int, offset as int).0,
            !fits(old(self).cursor as int, old(self).limit as int, size as int, align as int, offset as int)
                ==> r is None && *final(self) == *old(self),
    {
        let start = Self::align_allocation(self.cursor, align, offset);
        let end: u128 = start + size as u128;
        if end <= self.limit as u128 {
            self.cursor = end as usize;
            Some(start as usize)
        } else {
            None
        }
    }

    /// Allocates `size` bytes so that the address plus `offset` is a multiple of
    /// `align`; returns 0 when the space has no room.
    pub fn allocate(&mut self, space: &mut SpaceCommon, size: usize, align: usize, offset: isize) -> (r: Address)
        requires
            align > 0,
            offset >= 0,
            old(self).wf(),
            old(space).wf(),
        ensures
            final(self).wf(),
            final(space).wf(),
            (*final(self), *final(space), r) == bump_alloc_spec(*old(self), *old(space), size as int, align as int, offset as int),
    {
        match self.alloc_in_block(size, align, offset) {
            Some(r) => r,
            None => self.alloc_slow(space, size, align, offset),
        }
    }

    fn alloc_slow(&mut self, space: &mut SpaceCommon, size: usize, align: usize, offset: isize) -> (r: Address)
        requires
            align > 0,
            offset >= 0,
            old(self).wf(),
            old(space).wf(),
            !fits(old(self).cursor as int, old(self).limit as int, size as int, align as int, offset as int),
        ensures
            final(self).wf(),
            final(space).wf(),
            (*final(self), *final(space), r) == bump_alloc_spec(*old(self), *old(space), size as int, align as int, offset as int),
    {
        let blocks: u128 = (size as u128 + (BLOCK_SIZE - 1) as u128) / BLOCK_SIZE as u128;
        let block: u128 = blocks * BLOCK_SIZE as u128;
        if block > usize::MAX as u128 {
            return 0;
        }
        let start = space.acquire((blocks * PAGES_IN_BLOCK as u128) as usize);
        if start == 0 {
            return 0;
        }
        self.cursor = start;
        self.limit = start + block as usize;
        match self.alloc_in_block(size, align, offset) {
            Some(r) => r,
            None => 0,
        }
    }
}

/// Two successive allocations never overlap: the second starts where the first
/// ends or above.
pub proof fn lemma_successive_allocations_disjoint(
    a: BumpAllocator,
    s: SpaceCommon,
    size1: int,
    align1: int,
    size2: int,
    align2: int,
)
    requires
        a.bound_to(s),
        s.wf(),
        size1 > 0,
        size2 > 0,
        align1 > 0,
        align2 > 0,
    ensures
        ({
            let (a1, s1, r1) = bump_alloc_spec(a, s, size1, align1, 0);
            let (a2, s2, r2) = bump_alloc_spec(a1, s1, size2, align2, 0);
            r1 != 0 && r2 != 0 ==> r1 + size1 <= r2
        }),
{
    lemma_alloc_in_space(a, s, size1, align1, 0);
    let (a1, s1, r1) = bump_alloc_spec(a, s, size1, align1, 0);
    lemma_alloc_in_space(a1, s1, size2, align2, 0);
    lemma_align_allocation(a1.cursor as int, align2, 0);
    if r1 != 0 {
        assert(a1.cursor == r1 + size1);
    }
}

} // verus!
