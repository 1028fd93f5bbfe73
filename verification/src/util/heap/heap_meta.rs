use vstd::prelude::*;
use crate::util::address::Address;

verus! {

/// The virtual address range still free for spaces, and the number of spaces made
/// so far. Contiguous spaces take their range from the bottom (the cursor) or from
/// the top (the limit).
pub struct HeapMeta {
    pub heap_cursor: Address,
    pub heap_limit: Address,
    pub space_count: usize,
}

impl HeapMeta {
    pub open spec fn wf(&self) -> bool {
        0 < self.heap_cursor <= self.heap_limit
    }

    /// The bytes that are still free between the cursor and the limit.
    pub open spec fn available(&self) -> int {
        self.heap_limit - self.heap_cursor
    }

    pub fn new(heap_start: Address, heap_limit: Address) -> (r: Self)
        requires
            0 < heap_start <= heap_limit,
        ensures
            r.wf(),
            r.heap_cursor == heap_start,
            r.heap_limit == heap_limit,
            r.space_count == 0,
    {
        HeapMeta { heap_cursor: heap_start, heap_limit, space_count: 0 }
    }

    /// Takes `extent` bytes from the top of the free range when `top` holds, from its
    /// bottom otherwise, and returns where they start.
    pub fn reserve(&mut self, extent: usize, top: bool) -> (r: Address)
        requires
            old(self).wf(),
            extent <= old(self).available(),
        ensures
            final(self).wf(),
            final(self).space_count == old(self).space_count,
            top ==> r == old(self).heap_limit - extent && final(self).heap_limit == r
                && final(self).heap_cursor == old(self).heap_cursor,
            !top ==> r == old(self).heap_cursor && final(self).heap_cursor == r + extent
                && final(self).heap_limit == old(self).heap_limit,
            old(self).heap_cursor <= r,
            r + extent <= old(self).heap_limit,
    {
        if top {
            self.heap_limit = self.heap_limit - extent;
            self.heap_limit
        } else {
            let start = self.heap_cursor;
            self.heap_cursor = self.heap_cursor + extent;
            start
        }
    }

    /// Hands out the index of the next space.
    pub fn next_space_index(&mut self) -> (r: usize)
        requires
            old(self).space_count < usize::MAX,
        ensures
            r == old(self).space_count,
            *final(self) == (HeapMeta { space_count: (r + 1) as usize, ..*old(self) }),
    {
        let r = self.space_count;
        self.space_count = self.space_count + 1;
        r
    }
}

} // verus!
