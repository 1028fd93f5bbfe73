use mmtk::policy::space::SpaceCommon;
use mmtk::util::allocator::bump_allocator::BumpAllocator;
use mmtk::util::heap::heap_meta::HeapMeta;
use mmtk::util::heap::vmrequest::VMRequest;
use mmtk::util::{ObjectReference, OpaquePointer};

const START: usize = 0x1000_0000;

fn fixed_space(extent: usize) -> SpaceCommon {
    let mut heap = HeapMeta::new(0x100, 0x200);
    SpaceCommon::new("fixed", true, VMRequest::RequestFixed { start: START, extent, top: false }, &mut heap)
}

#[test]
fn heap_meta_reserves_from_bottom_and_top() {
    let mut heap = HeapMeta::new(0x1000, 0x9000);
    assert_eq!(heap.reserve(0x1000, false), 0x1000);
    assert_eq!(heap.heap_cursor, 0x2000);
    assert_eq!(heap.reserve(0x2000, true), 0x7000);
    assert_eq!(heap.heap_limit, 0x7000);
    assert_eq!(heap.next_space_index(), 0);
    assert_eq!(heap.next_space_index(), 1);
}

#[test]
fn space_from_requests() {
    let mut heap = HeapMeta::new(0x10000, 0x90000);
    let bottom = SpaceCommon::new("a", false, VMRequest::RequestExtent { extent: 0x10000, top: false }, &mut heap);
    let top = SpaceCommon::new("b", true, VMRequest::RequestExtent { extent: 0x20000, top: true }, &mut heap);
    let disc = SpaceCommon::new("c", true, VMRequest::RequestDiscontiguous, &mut heap);
    assert_eq!((bottom.index, bottom.start, bottom.extent, bottom.contiguous), (0, 0x10000, 0x10000, true));
    assert_eq!((top.index, top.start, top.extent), (1, 0x70000, 0x20000));
    assert_eq!((disc.index, disc.contiguous, disc.extent), (2, false, 0));
    assert_eq!((heap.heap_cursor, heap.heap_limit, heap.space_count), (0x20000, 0x70000, 3));
    assert!(bottom.in_space(ObjectReference(0x10000)));
    assert!(bottom.in_space(ObjectReference(0x1ffff)));
    assert!(!bottom.in_space(ObjectReference(0x20000)));
    assert!(!disc.in_space(ObjectReference(0x10000)));
}

#[test]
fn acquire_hands_out_disjoint_pages_and_release_gives_them_back() {
    let mut s = fixed_space(0x4000);
    assert_eq!(s.acquire(2), START);
    assert_eq!(s.acquire(1), START + 0x2000);
    assert_eq!(s.reserved_pages(), 3);
    assert_eq!(s.acquire(2), 0);
    assert_eq!(s.acquire(1), START + 0x3000);
    assert_eq!(s.acquire(1), 0);
    assert_eq!(s.acquire(usize::MAX), 0);
    s.release();
    assert_eq!(s.reserved_pages(), 0);
    assert_eq!(s.cursor, START);
    assert_eq!(s.acquire(4), START);
}

#[test]
fn discontiguous_space_provides_no_memory() {
    let mut heap = HeapMeta::new(0x10000, 0x90000);
    let mut s = SpaceCommon::new("d", false, VMRequest::RequestDiscontiguous, &mut heap);
    assert_eq!(s.acquire(1), 0);
}

#[test]
fn align_allocation_values() {
    assert_eq!(BumpAllocator::align_allocation(13, 8, 0), 16);
    assert_eq!(BumpAllocator::align_allocation(16, 8, 0), 16);
    assert_eq!(BumpAllocator::align_allocation(13, 8, 4), 20);
    assert_eq!(BumpAllocator::align_allocation(13, 1, 0), 13);
    assert_eq!(BumpAllocator::align_allocation(0, 4096, 0), 0);
}

#[test]
fn bump_allocation_takes_blocks_and_fails_when_space_is_full() {
    let mut s = fixed_space(0x10000);
    let mut a = BumpAllocator::new(OpaquePointer(3), Some(s.index));
    assert_eq!(a.allocate(&mut s, 40000, 8, 0), START);
    assert_eq!(s.reserved_pages(), 16);
    assert_eq!((a.cursor, a.limit), (START + 40000, START + 0x10000));
    assert_eq!(a.allocate(&mut s, 100, 8, 0), START + 40000);
    assert_eq!(a.allocate(&mut s, 10, 16, 0), START + 40112);
    assert_eq!(a.allocate(&mut s, 30000, 8, 0), 0);
    assert_eq!(s.reserved_pages(), 16);
}

#[test]
fn successive_allocations_do_not_overlap() {
    let mut s = fixed_space(0x20000);
    let mut a = BumpAllocator::new(OpaquePointer(3), Some(s.index));
    let r1 = a.allocate(&mut s, 24, 8, 0);
    let r2 = a.allocate(&mut s, 32768, 16, 0);
    let r3 = a.allocate(&mut s, 8, 8, 0);
    assert_eq!(r1, START);
    assert_eq!(r2, START + 0x8000);
    assert!(r1 + 24 <= r2 && r2 + 32768 <= r3);
}

#[test]
fn rebind_drops_the_block() {
    let mut s = fixed_space(0x10000);
    let mut a = BumpAllocator::new(OpaquePointer(3), Some(s.index));
    a.allocate(&mut s, 64, 8, 0);
    a.rebind(Some(9));
    assert_eq!((a.space, a.cursor, a.limit), (Some(9), 0, 0));
    a.reset();
    assert_eq!((a.cursor, a.limit), (0, 0));
}
