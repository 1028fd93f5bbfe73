use vstd::prelude::*;
use crate::util::address::{Address, ObjectReference};
use crate::util::constants::BYTES_IN_PAGE;
use crate::util::heap::heap_meta::HeapMeta;
use crate::util::heap::vmrequest::VMRequest;

verus! {

/// What every space holds: its name and index, the address range it owns (only a
/// contiguous space owns one), how much of that range has been acquired, and
/// whether it was initialised.
///
/// The range is acquired page by page from its start: `cursor` is the first
/// address not yet acquired, and `reserved_pages` counts the acquired pages.
pub struct SpaceCommon {
    pub name: &'static str,
    pub index: usize,
    pub zeroed: bool,
    pub contiguous: bool,
    pub start: Address,
    pub extent: usize,
    pub cursor: Address,
    pub reserved_pages: usize,
    pub initialized: bool,
}

/// Whether `request` can be granted from `heap` without running out of virtual
/// address space. A fraction of the heap is a floating-point computation, which this
/// library does not make: such a request is never granted here.
pub open spec fn request_fits(request: VMRequest, heap: HeapMeta) -> bool {
    match request {
        VMRequest::RequestDiscontiguous => true,
        VMRequest::RequestFixed { start, extent, .. } => 0 < start && start + extent <= usize::MAX,
        VMRequest::RequestExtent { extent, .. } => extent <= heap.available(),
        VMRequest::RequestFraction { .. } => false,
    }
}

/// The result of acquiring `pages` pages from `s`: the new space, and the start of
/// the pages, or 0 when they cannot be had.
pub open spec fn acquire_spec(s: SpaceCommon, pages: int) -> (SpaceCommon, Address) {
    let bytes = pages * BYTES_IN_PAGE;
    if s.contiguous && bytes <= s.start + s.extent - s.cursor {
        (
            SpaceCommon {
                cursor: (s.cursor + bytes) as usize,
                reserved_pages: (s.reserved_pages + pages) as usize,
                ..s
            },
            s.cursor,
        )
    } else {
        (s, 0)
    }
}

/// The address ranges of `a` and `b` do not overlap.
pub open spec fn disjoint(a: SpaceCommon, b: SpaceCommon) -> bool {
    !a.contiguous || !b.contiguous || a.start + a.extent <= b.start || b.start + b.extent <= a.start
}

/// A space holds at most as many pages as the address space has.
pub proof fn lemma_reserved_pages_bound(s: SpaceCommon)
    requires
        s.wf(),
    ensures
        s.reserved_pages * BYTES_IN_PAGE <= usize::MAX,
        s.reserved_pages <= usize::MAX / 4096,
{
}

impl SpaceCommon {
    /// The space that `request` describes, made from `heap`: it takes the next
    /// index, and a contiguous request takes its range from the heap's top or bottom.
    pub open spec fn new_spec(name: &'static str, zeroed: bool, request: VMRequest, heap: HeapMeta) -> SpaceCommon {
        let base = SpaceCommon {
            name,
            index: heap.space_count,
            zeroed,
            contiguous: false,
            start: 0,
            extent: 0,
            cursor: 0,
            reserved_pages: 0,
            initialized: false,
        };
        match request {
            VMRequest::RequestFixed { start, extent, .. } => SpaceCommon {
                contiguous: true,
                start,
                extent,
                cursor: start,
                ..base
            },
            VMRequest::RequestExtent { extent, top } => {
                let start = if top {
                    (heap.heap_limit - extent) as usize
                } else {
                    heap.heap_cursor
                };
                SpaceCommon { contiguous: true, start, extent, cursor: start, ..base }
            },
            _ => base,
        }
    }

    /// The heap after `request` was granted from it.
    pub open spec fn new_heap_spec(request: VMRequest, heap: HeapMeta) -> HeapMeta {
        let h = HeapMeta { space_count: (heap.space_count + 1) as usize, ..heap };
        match request {
            VMRequest::RequestExtent { extent, top } => if top {
                HeapMeta { heap_limit: (heap.heap_limit - extent) as usize, ..h }
            } else {
                HeapMeta { heap_cursor: (heap.heap_cursor + extent) as usize, ..h }
            },
            _ => h,
        }
    }

    pub open spec fn wf(&self) -> bool {
        &&& self.contiguous ==> {
            &&& 0 < self.start
            &&& self.start + self.extent <= usize::MAX
            &&& self.start <= self.cursor <= self.start + self.extent
            &&& self.cursor - self.start == self.reserved_pages * BYTES_IN_PAGE
        }
        &&& !self.contiguous ==> self.extent == 0 && self.start == 0 && self.cursor == 0
            && self.reserved_pages == 0
    }

    /// Whether `addr` lies in the range that the space owns.
    pub open spec fn contains(&self, addr: int) -> bool {
        self.contiguous && self.start <= addr < self.start + self.extent
    }

    /// Makes the space that `request` describes, taking its range from `heap`.
    pub fn new(name: &'static str, zeroed: bool, request: VMRequest, heap: &mut HeapMeta) -> (r: Self)
        requires
            old(heap).wf(),
            old(heap).space_count < usize::MAX,
            request_fits(request, *old(heap)),
        ensures
            r.wf(),
            final(heap).wf(),
            r == SpaceCommon::new_spec(name, zeroed, request, *old(heap)),
            *final(heap) == SpaceCommon::new_heap_spec(request, *old(heap)),
    {
        let index = heap.next_space_index();
        match request {
            VMRequest::RequestDiscontiguous => SpaceCommon {
                name,
                index,
                zeroed,
                contiguous: false,
                start: 0,
                extent: 0,
                cursor: 0,
                reserved_pages: 0,
                initialized: false,
            },
            VMRequest::RequestFixed { start, extent, .. } => SpaceCommon {
                name,
                index,
                zeroed,
                contiguous: true,
                start,
                extent,
                cursor: start,
                reserved_pages: 0,
                initialized: false,
            },
            VMRequest::RequestExtent { extent, top } => {
                let start = heap.reserve(extent, top);
                SpaceCommon {
                    name,
                    index,
                    zeroed,
                    contiguous: true,
                    start,
                    extent,
                    cursor: start,
                    reserved_pages: 0,
                    initialized: false,
                }
            },
            VMRequest::RequestFraction { .. } => {
                // request_fits excludes this request
                proof {
                    assert(false);
                }
                SpaceCommon {
                    name,
                    index,
                    zeroed,
                    contiguous: false,
                    start: 0,
                    extent: 0,
                    cursor: 0,
                    reserved_pages: 0,
                    initialized: false,
                }
            },
        }
    }

    /// Records that the space has been set up for use.
    pub fn init(&mut self)
        ensures
            *final(self) == (SpaceCommon { initialized: true, ..*old(self) }),
    {
        self.initialized = true;
    }

    /// Acquires `pages` pages from the start of the unacquired part of the range;
    /// returns their start, or 0 when the space cannot provide them.
    pub fn acquire(&mut self, pages: usize) -> (r: Address)
        requires
            old(self).wf(),
        ensures
            final(self).wf(),
            (*final(self), r) == acquire_spec(*old(self), pages as int),
    {
        if !self.contiguous {
            return 0;
        }
        match pages.checked_mul(BYTES_IN_PAGE) {
            None => 0,
            Some(bytes) => {
                if bytes <= self.start + self.extent - self.cursor {
                    let r = self.cursor;
                    self.cursor = self.cursor + bytes;
                    self.reserved_pages = self.reserved_pages + pages;
                    r
                } else {
                    0
                }
            },
        }
    }

    /// Gives back every acquired page.
    pub fn release(&mut self)
        requires
            old(self).wf(),
        ensures
            final(self).wf(),
            *final(self) == (SpaceCommon { cursor: old(self).start, reserved_pages: 0, ..*old(self) }),
    {
        self.cursor = self.start;
        self.reserved_pages = 0;
    }

    pub fn in_space(&self, object: ObjectReference) -> (r: bool)
        requires
            self.wf(),
        ensures
            r == self.contains(object.0 as int),
    {
        self.contiguous && self.start <= object.0 && object.0 - self.start < self.extent
    }

    pub fn reserved_pages(&self) -> (r: usize)
        ensures
            r == self.reserved_pages,
    {
        self.reserved_pages
    }
}

/// Two acquisitions from a space never hand out overlapping memory: the second
/// starts where the first ends or above.
pub proof fn lemma_acquire_disjoint(s: SpaceCommon, pages1: int, pages2: int)
    requires
        s.wf(),
        pages1 >= 0,
        pages2 >= 0,
    ensures
        ({
            let (s1, r1) = acquire_spec(s, pages1);
            let (s2, r2) = acquire_spec(s1, pages2);
            r1 != 0 && r2 != 0 ==> r1 + pages1 * BYTES_IN_PAGE <= r2
        }),
{
}

} // verus!
