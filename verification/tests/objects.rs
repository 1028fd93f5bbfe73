use mmtk::plan::mygc::gc_works::MyGCCopyContext;
use mmtk::plan::mygc::MyGC;
use mmtk::plan::AllocationSemantics;
use mmtk::policy::copyspace::CopySpace;
use mmtk::policy::immortalspace::ImmortalSpace;
use mmtk::scheduler::gc_works::ProcessEdgesBase;
use mmtk::util::forwarding_word::{
    attempt_to_forward, clear_forwarding_bits, forward_object, set_forwarding_pointer,
    spin_and_get_forwarded_object, state_is_forwarded_or_being_forwarded,
};
use mmtk::util::heap::heap_meta::HeapMeta;
use mmtk::util::heap::vmrequest::VMRequest;
use mmtk::util::object_model::{copy, ForwardingState, ObjectTable};
use mmtk::util::ObjectReference;

fn fixed(name: &'static str, start: usize, extent: usize, heap: &mut HeapMeta) -> CopySpace {
    CopySpace::new(name, false, true, VMRequest::RequestFixed { start, extent, top: false }, heap)
}

#[test]
fn object_table_get_and_set() {
    let mut objects = ObjectTable::new();
    assert!(objects.get(ObjectReference(0x100)).is_none());
    objects.add(0x100, 8, 8);
    let info = objects.get(ObjectReference(0x100)).unwrap();
    assert_eq!((info.size, info.align, info.forwarding, info.mark), (8, 8, ForwardingState::NotForwarded, 0));
}

#[test]
fn forwarding_word_states() {
    let mut objects = ObjectTable::new();
    objects.add(0x100, 8, 8);
    let o = ObjectReference(0x100);
    assert_eq!(attempt_to_forward(&mut objects, o), ForwardingState::NotForwarded);
    assert_eq!(objects.get(o).unwrap().forwarding, ForwardingState::BeingForwarded);
    assert_eq!(attempt_to_forward(&mut objects, o), ForwardingState::BeingForwarded);
    assert!(state_is_forwarded_or_being_forwarded(ForwardingState::BeingForwarded));
    assert!(!state_is_forwarded_or_being_forwarded(ForwardingState::NotForwarded));
    set_forwarding_pointer(&mut objects, o, ObjectReference(0x900));
    let state = objects.get(o).unwrap().forwarding;
    assert_eq!(state, ForwardingState::Forwarded(0x900));
    assert!(state_is_forwarded_or_being_forwarded(state));
    assert_eq!(spin_and_get_forwarded_object(&objects, o, state), ObjectReference(0x900));
    clear_forwarding_bits(&mut objects, o);
    assert_eq!(objects.get(o).unwrap().forwarding, ForwardingState::NotForwarded);
    clear_forwarding_bits(&mut objects, ObjectReference(0x200));
    assert!(objects.get(ObjectReference(0x200)).is_none());
}

#[test]
fn copy_object_into_space() {
    let mut heap = HeapMeta::new(0x10, 0x20);
    let mut to = fixed("to", 0x10_0000, 0x10_0000, &mut heap);
    let mut ctx = MyGCCopyContext::new();
    ctx.mygc.rebind(Some(to.common.index));
    let mut objects = ObjectTable::new();
    objects.add(0x100, 48, 16);
    let c = copy(&mut objects, ObjectReference(0x100), AllocationSemantics::Default, &mut ctx, &mut to.common);
    assert_eq!(c, ObjectReference(0x10_0000));
    assert_eq!(objects.get(c).unwrap().size, 48);
    assert_eq!(objects.get(ObjectReference(0x100)).unwrap().forwarding, ForwardingState::NotForwarded);
}

#[test]
fn forward_object_without_memory_returns_null() {
    let mut heap = HeapMeta::new(0x10, 0x20);
    let mut to = fixed("to", 0x10_0000, 4096, &mut heap);
    let mut ctx = MyGCCopyContext::new();
    ctx.mygc.rebind(Some(to.common.index));
    let mut objects = ObjectTable::new();
    objects.add(0x100, 48, 16);
    let o = ObjectReference(0x100);
    attempt_to_forward(&mut objects, o);
    let r = forward_object(&mut objects, o, AllocationSemantics::Default, &mut ctx, &mut to.common);
    assert!(r.is_null());
    assert_eq!(objects.get(o).unwrap().forwarding, ForwardingState::NotForwarded);
    assert_eq!(to.reserved_pages(), 0);
}

#[test]
fn copyspace_trace_without_memory_returns_null_and_queues_nothing() {
    let mut heap = HeapMeta::new(0x10, 0x20);
    let mut from = fixed("from", 0x1000, 0x1000, &mut heap);
    let mut to = fixed("to", 0x10_0000, 4096, &mut heap);
    from.prepare(true);
    let mut ctx = MyGCCopyContext::new();
    ctx.mygc.rebind(Some(to.common.index));
    let mut objects = ObjectTable::new();
    objects.add(0x1000, 48, 16);
    let mut trace = ProcessEdgesBase::new(vec![]);
    let r = from.trace_object(&mut trace, &mut objects, ObjectReference(0x1000), AllocationSemantics::Default, &mut ctx, &mut to.common);
    assert!(r.is_null());
    assert!(trace.nodes.is_empty());
    assert_eq!(objects.get(ObjectReference(0x1000)).unwrap().forwarding, ForwardingState::NotForwarded);
}

#[test]
fn copyspace_prepare_and_release() {
    let mut heap = HeapMeta::new(0x10, 0x20);
    let mut s = fixed("s", 0x1000, 0x10000, &mut heap);
    s.init();
    assert!(s.common.initialized);
    s.prepare(true);
    assert!(s.from_space);
    s.common.acquire(4);
    assert_eq!(s.reserved_pages(), 4);
    s.release();
    assert_eq!(s.reserved_pages(), 0);
    assert!(!s.from_space);
    assert!(s.in_space(ObjectReference(0x1000)));
    assert!(!s.in_space(ObjectReference(0x11000)));
}

#[test]
fn immortal_space_marks_and_flips() {
    let mut heap = HeapMeta::new(0x1000, 0x100000);
    let mut s = ImmortalSpace::new("imm", true, VMRequest::RequestExtent { extent: 0x10000, top: false }, &mut heap);
    s.init();
    assert_eq!(s.mark_state, 0);
    s.prepare();
    assert_eq!(s.mark_state, 1);
    let mut objects = ObjectTable::new();
    objects.add(0x1100, 16, 8);
    let o = ObjectReference(0x1100);
    assert!(s.in_space(o));
    assert!(ImmortalSpace::test_and_mark(&mut objects, o, 1));
    assert!(!ImmortalSpace::test_and_mark(&mut objects, o, 1));
    s.prepare();
    assert_eq!(s.mark_state, 0);
    let mut trace = ProcessEdgesBase::new(vec![]);
    assert_eq!(s.trace_object(&mut trace, &mut objects, o), o);
    assert_eq!(trace.nodes, vec![o]);
    assert_eq!(s.trace_object(&mut trace, &mut objects, o), o);
    assert_eq!(trace.nodes, vec![o]);
    s.release();
    assert_eq!(s.reserved_pages(), 0);
}

#[test]
fn copy_spaces_never_share_an_address() {
    let plan = MyGC::new();
    for a in [0x200_0000_0000usize, 0x400_0000_0000 - 1, 0x400_0000_0000, 0x600_0000_0000 - 8] {
        let o = ObjectReference(a);
        assert!(!(plan.tospace().in_space(o) && plan.fromspace().in_space(o)));
        assert!(plan.tospace().in_space(o) || plan.fromspace().in_space(o));
    }
    assert!(!plan.tospace().in_space(ObjectReference(0x600_0000_0000)));
    assert!(!plan.fromspace().in_space(ObjectReference(0x600_0000_0000)));
}
