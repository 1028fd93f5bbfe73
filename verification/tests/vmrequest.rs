use mmtk::util::heap::layout::{heap_end, heap_layout_32bit, heap_layout_64bit, heap_start, max_space_extent};
use mmtk::util::heap::vmrequest::VMRequest;

const EXTENT: usize = 1 << 41;

#[test]
fn layout_is_64bit_on_this_target() {
    assert!(heap_layout_64bit());
    assert!(!heap_layout_32bit());
    assert_eq!(max_space_extent(), 0x200_0000_0000);
    assert_eq!(heap_start(), 0x0000_0200_0000_0000);
    assert_eq!(heap_end(), 0x0000_2200_0000_0000);
}

#[test]
fn is_discontiguous_only_for_discontiguous_variant() {
    assert!(VMRequest::RequestDiscontiguous.is_discontiguous());
    assert!(!VMRequest::RequestExtent { extent: 10, top: false }.is_discontiguous());
    assert!(!VMRequest::RequestFixed { start: 0x1000, extent: 10, top: true }.is_discontiguous());
    assert!(!VMRequest::RequestFraction { frac_bits: 0.5f32.to_bits(), top: false }.is_discontiguous());
}

#[test]
fn common64bit_requests_max_extent() {
    assert_eq!(VMRequest::common64bit(true), VMRequest::RequestExtent { extent: EXTENT, top: true });
    assert_eq!(VMRequest::common64bit(false), VMRequest::RequestExtent { extent: EXTENT, top: false });
}

#[test]
fn discontiguous_is_an_extent_under_64bit_layout() {
    let r = VMRequest::discontiguous();
    assert_eq!(r, VMRequest::RequestExtent { extent: EXTENT, top: false });
    assert!(!r.is_discontiguous());
}

#[test]
fn fixed_size_ignores_size_under_64bit_layout() {
    assert_eq!(VMRequest::fixed_size(10), VMRequest::RequestExtent { extent: EXTENT, top: false });
    assert_eq!(VMRequest::fixed_size(0), VMRequest::RequestExtent { extent: EXTENT, top: false });
}

#[test]
fn high_fixed_size_takes_top_under_64bit_layout() {
    assert_eq!(VMRequest::high_fixed_size(10), VMRequest::RequestExtent { extent: EXTENT, top: true });
}

#[test]
fn fraction_is_an_extent_under_64bit_layout() {
    assert_eq!(
        VMRequest::fraction(0.25f32.to_bits()),
        VMRequest::RequestExtent { extent: EXTENT, top: false }
    );
}

#[test]
fn fixed_extent_keeps_top_under_64bit_layout() {
    assert_eq!(VMRequest::fixed_extent(4096, true), VMRequest::RequestExtent { extent: EXTENT, top: true });
    assert_eq!(VMRequest::fixed_extent(4096, false), VMRequest::RequestExtent { extent: EXTENT, top: false });
}

#[test]
fn common64bit_is_never_discontiguous() {
    assert!(!VMRequest::common64bit(false).is_discontiguous());
    assert_eq!(VMRequest::common64bit(true), VMRequest::RequestExtent { extent: max_space_extent(), top: true });
}
