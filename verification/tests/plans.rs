use std::ops::{Deref, DerefMut};
use mmtk::plan::global::{BasePlan, GcStatus};
use mmtk::plan::mygc::gc_works::{MyGCCopyContext, MyGCProcessEdges};
use mmtk::plan::mygc::MyGC;
use mmtk::plan::singlesemi::SingleSemi;
use mmtk::plan::triplespace::gc_works::{TripleSpaceCopyContext, TripleSpaceProcessEdges};
use mmtk::plan::triplespace::TripleSpace;
use mmtk::plan::withmut::WithMut;
use mmtk::plan::CopyContext;
use mmtk::scheduler::gc_works::{EdgeProcessor, Scheduler, Work};
use mmtk::util::object_model::{ForwardingState, ObjectTable};
use mmtk::util::{ObjectReference, OpaquePointer};

const E: usize = 0x200_0000_0000;
const BASE: usize = 0x200_0000_0000;

#[test]
fn mygc_new_lays_out_spaces() {
    let plan = MyGC::new();
    assert!(!plan.hi);
    assert_eq!(plan.copyspace0.common.name, "copyspace0");
    assert_eq!(plan.copyspace1.common.name, "copyspace1");
    assert_eq!((plan.copyspace0.common.start, plan.copyspace0.common.extent), (BASE, E));
    assert_eq!(plan.copyspace1.common.start, BASE + E);
    assert_eq!(plan.common.immortal.common.start, BASE + 2 * E);
    assert_eq!(plan.common.los.common.start, BASE + 3 * E);
    assert!(!plan.copyspace0.from_space);
    assert!(plan.copyspace1.from_space);
    assert_eq!(plan.tospace().common.index, 0);
    assert_eq!(plan.fromspace().common.index, 1);
    assert_eq!(plan.get_pages_used(), 0);
    assert_eq!(plan.get_collection_reserve(), 0);
    assert_eq!(plan.base().gc_status, GcStatus::NotInGC);
    assert_eq!(plan.common().los.common.index, 3);
}

#[test]
fn mygc_gc_init_sizes_heap_and_initialises_spaces() {
    let mut plan = MyGC::new();
    plan.gc_init(1 << 20);
    assert_eq!(plan.common.base.total_pages, 256);
    assert!(plan.copyspace0.common.initialized);
    assert!(plan.copyspace1.common.initialized);
    assert!(plan.common.immortal.common.initialized);
    assert!(plan.common.los.common.initialized);
}

#[test]
fn mygc_prepare_swaps_spaces() {
    let mut plan = MyGC::new();
    let old_to = plan.tospace().common.index;
    let old_from = plan.fromspace().common.index;
    plan.prepare(OpaquePointer(1));
    assert!(plan.hi);
    assert_eq!(plan.tospace().common.index, old_from);
    assert_eq!(plan.fromspace().common.index, old_to);
    assert!(plan.fromspace().from_space);
    assert!(!plan.tospace().from_space);
    assert_eq!(plan.common.immortal.mark_state, 1);
    assert_eq!(plan.common.los.mark_state, 1);
}

#[test]
fn mygc_prepare_twice_restores_tospace() {
    let mut plan = MyGC::new();
    plan.prepare(OpaquePointer(1));
    plan.prepare(OpaquePointer(1));
    assert!(!plan.hi);
    assert_eq!(plan.tospace().common.index, 0);
    assert_eq!(plan.common.immortal.mark_state, 0);
}

#[test]
fn mygc_schedule_collection() {
    let mut plan = MyGC::new();
    let mut scheduler = Scheduler::new();
    plan.schedule_collection(&mut scheduler);
    assert_eq!(plan.base().gc_status, GcStatus::GcPrepare);
    assert_eq!(plan.base().cur_collection_attempts, 1);
    assert_eq!(plan.base().max_collection_attempts, 1);
    assert!(!plan.base().emergency_collection);
    assert_eq!(scheduler.unconstrained_works, vec![Work::StopMutators(EdgeProcessor::MyGC)]);
    assert_eq!(scheduler.prepare_stage, vec![Work::Prepare]);
    assert_eq!(scheduler.release_stage, vec![Work::Release]);
    assert!(scheduler.final_stage.is_empty());
    assert_eq!(scheduler.finalizer, Some(Work::EndOfGC));
    plan.schedule_collection(&mut scheduler);
    assert_eq!(plan.base().cur_collection_attempts, 2);
    assert!(plan.base().emergency_collection);
}

#[test]
fn user_collection_makes_one_attempt() {
    let mut plan = MyGC::new();
    let mut scheduler = Scheduler::new();
    plan.schedule_collection(&mut scheduler);
    plan.common.base.user_triggered_collection = true;
    plan.schedule_collection(&mut scheduler);
    assert_eq!(plan.base().max_collection_attempts, 1);
    assert_eq!(plan.base().cur_collection_attempts, 1);
    assert!(!plan.base().emergency_collection);
}

#[test]
fn base_plan_collection_kind_after_successful_allocation() {
    let mut base = BasePlan::new(mmtk::util::heap::heap_meta::HeapMeta::new(0x1000, 0x2000));
    base.allocation_success = true;
    base.max_collection_attempts = 5;
    base.set_collection_kind();
    assert_eq!(base.max_collection_attempts, 1);
    assert_eq!(base.cur_collection_attempts, 1);
    assert!(!base.allocation_success);
    assert!(!base.emergency_collection);
}

fn collecting_mygc() -> (MyGC, ObjectTable, MyGCCopyContext, MyGCProcessEdges) {
    let mut plan = MyGC::new();
    plan.prepare(OpaquePointer(1));
    let mut ctx = MyGCCopyContext::new();
    ctx.init(OpaquePointer(2));
    ctx.prepare(&plan);
    (plan, ObjectTable::new(), ctx, MyGCProcessEdges::new(vec![0x10, 0x20], false))
}

#[test]
fn mygc_trace_null_returns_null() {
    let (mut plan, mut objects, mut ctx, mut edges) = collecting_mygc();
    let r = edges.trace_object(&mut plan, &mut objects, &mut ctx, ObjectReference::null());
    assert!(r.is_null());
    assert!(edges.deref().nodes.is_empty());
    assert_eq!(edges.deref().edges, vec![0x10, 0x20]);
}

#[test]
fn mygc_trace_copies_fromspace_object_once() {
    let (mut plan, mut objects, mut ctx, mut edges) = collecting_mygc();
    let obj = BASE + 0x1000;
    objects.add(obj, 24, 8);
    let to_start = plan.tospace().common.start;
    assert_eq!(to_start, BASE + E);
    let r = edges.trace_object(&mut plan, &mut objects, &mut ctx, ObjectReference(obj));
    assert_eq!(r, ObjectReference(to_start));
    assert!(plan.tospace().in_space(r));
    assert_eq!(objects.get(ObjectReference(obj)).unwrap().forwarding, ForwardingState::Forwarded(to_start));
    let copy = objects.get(r).unwrap();
    assert_eq!((copy.size, copy.align, copy.forwarding), (24, 8, ForwardingState::NotForwarded));
    assert_eq!(edges.deref().nodes, vec![r]);
    assert_eq!(plan.get_pages_used(), 8);
    assert_eq!(plan.get_collection_reserve(), 8);
    let again = edges.trace_object(&mut plan, &mut objects, &mut ctx, ObjectReference(obj));
    assert_eq!(again, r);
    assert_eq!(edges.deref().nodes, vec![r]);
    assert_eq!(plan.get_pages_used(), 8);
}

#[test]
fn mygc_trace_second_object_is_aligned_after_first() {
    let (mut plan, mut objects, mut ctx, mut edges) = collecting_mygc();
    objects.add(BASE + 0x1000, 24, 8);
    objects.add(BASE + 0x2000, 16, 16);
    let r1 = edges.trace_object(&mut plan, &mut objects, &mut ctx, ObjectReference(BASE + 0x1000));
    let r2 = edges.trace_object(&mut plan, &mut objects, &mut ctx, ObjectReference(BASE + 0x2000));
    assert_eq!(r1.0, BASE + E);
    assert_eq!(r2.0, BASE + E + 32);
    assert_eq!(edges.deref().nodes, vec![r1, r2]);
}

#[test]
fn mygc_trace_tospace_object_stays() {
    let (mut plan, mut objects, mut ctx, mut edges) = collecting_mygc();
    let obj = BASE + E + 0x40;
    objects.add(obj, 24, 8);
    let r = edges.trace_object(&mut plan, &mut objects, &mut ctx, ObjectReference(obj));
    assert_eq!(r, ObjectReference(obj));
    assert!(edges.deref().nodes.is_empty());
    assert_eq!(objects.get(r).unwrap().forwarding, ForwardingState::NotForwarded);
    assert_eq!(plan.get_pages_used(), 0);
}

#[test]
fn mygc_trace_common_object_marks_once() {
    let (mut plan, mut objects, mut ctx, mut edges) = collecting_mygc();
    let imm = BASE + 2 * E + 0x100;
    let los = BASE + 3 * E + 0x100;
    objects.add(imm, 32, 8);
    objects.add(los, 8192, 8);
    assert_eq!(edges.trace_object(&mut plan, &mut objects, &mut ctx, ObjectReference(imm)), ObjectReference(imm));
    assert_eq!(edges.trace_object(&mut plan, &mut objects, &mut ctx, ObjectReference(imm)), ObjectReference(imm));
    assert_eq!(edges.trace_object(&mut plan, &mut objects, &mut ctx, ObjectReference(los)), ObjectReference(los));
    assert_eq!(edges.deref().nodes, vec![ObjectReference(imm), ObjectReference(los)]);
    assert_eq!(objects.get(ObjectReference(imm)).unwrap().mark, 1);
    assert_eq!(objects.get(ObjectReference(los)).unwrap().mark, 1);
}

#[test]
fn mygc_trace_in_non_copying_fromspace_returns_object() {
    let mut plan = MyGC::new();
    let mut objects = ObjectTable::new();
    let mut ctx = MyGCCopyContext::new();
    ctx.prepare(&plan);
    plan.release(OpaquePointer(1));
    assert!(!plan.fromspace().from_space);
    let obj = BASE + E + 0x80;
    objects.add(obj, 24, 8);
    let mut edges = MyGCProcessEdges::default();
    let r = edges.trace_object(&mut plan, &mut objects, &mut ctx, ObjectReference(obj));
    assert_eq!(r, ObjectReference(obj));
    assert!(edges.deref().nodes.is_empty());
}

#[test]
fn mygc_release_empties_fromspace() {
    let (mut plan, mut objects, mut ctx, mut edges) = collecting_mygc();
    objects.add(BASE + 0x1000, 24, 8);
    edges.trace_object(&mut plan, &mut objects, &mut ctx, ObjectReference(BASE + 0x1000));
    plan.release(OpaquePointer(1));
    plan.prepare(OpaquePointer(1));
    assert_eq!(plan.fromspace().reserved_pages(), 8);
    assert_eq!(plan.get_pages_used(), 0);
    plan.release(OpaquePointer(1));
    assert_eq!(plan.fromspace().reserved_pages(), 0);
    assert!(!plan.fromspace().from_space);
    assert_eq!(plan.fromspace().common.cursor, plan.fromspace().common.start);
}

#[test]
fn mygc_copy_context_alloc_copy_and_post_copy() {
    let mut plan = MyGC::new();
    let mut ctx = MyGCCopyContext::new();
    ctx.prepare(&plan);
    assert_eq!(ctx.mygc.space, Some(0));
    let r = ctx.alloc_copy(&mut plan.copyspace0.common, ObjectReference(1), 64, 8, 0, mmtk::plan::AllocationSemantics::Default);
    assert_eq!(r, BASE);
    let mut objects = ObjectTable::new();
    objects.add(r, 64, 8);
    objects.set(ObjectReference(r), mmtk::util::object_model::ObjectInfo {
        size: 64,
        align: 8,
        forwarding: ForwardingState::BeingForwarded,
        mark: 0,
    });
    ctx.post_copy(&mut objects, ObjectReference(r), 0, 64, mmtk::plan::AllocationSemantics::Default);
    assert_eq!(objects.get(ObjectReference(r)).unwrap().forwarding, ForwardingState::NotForwarded);
    ctx.release();
    assert_eq!(ctx.mygc.cursor, BASE + 64);
}

#[test]
fn mygc_process_edges_deref_mut() {
    let mut edges = MyGCProcessEdges::new(vec![1, 2, 3], true);
    edges.deref_mut().process_node(ObjectReference(0x40));
    assert_eq!(edges.deref().nodes, vec![ObjectReference(0x40)]);
    assert_eq!(edges.deref().edges, vec![1, 2, 3]);
}

#[test]
fn withmut_new_and_pages() {
    let mut plan = WithMut::new();
    assert_eq!(plan.tospace().common.index, 0);
    assert_eq!(plan.fromspace().common.index, 1);
    assert_eq!(plan.get_pages_used(), 0);
    assert_eq!(plan.common().immortal.common.start, BASE + 2 * E);
    plan.gc_init(8192);
    assert_eq!(plan.base().total_pages, 2);
    assert!(plan.copyspace1.common.initialized);
}

#[test]
fn singlesemi_new_and_pages() {
    let mut plan = SingleSemi::new();
    assert_eq!(plan.singlesemi_space.common.name, "singlesemi_space");
    assert_eq!(plan.singlesemi_space.common.start, BASE);
    assert_eq!(plan.get_pages_used(), 0);
    plan.singlesemi_space.common.acquire(3);
    assert_eq!(plan.get_pages_used(), 3);
    plan.gc_init(4096 * 10 + 5);
    assert_eq!(plan.base().total_pages, 11);
    assert!(plan.singlesemi_space.common.initialized);
}

#[test]
fn triplespace_new_lays_out_spaces() {
    let plan = TripleSpace::new();
    assert_eq!(plan.youngspace().common.start, BASE);
    assert!(plan.youngspace().from_space);
    assert_eq!(plan.tospace().common.start, BASE + E);
    assert_eq!(plan.fromspace().common.start, BASE + 2 * E);
    assert_eq!(plan.common.los.common.index, 4);
}

#[test]
fn triplespace_trace_evacuates_youngspace_into_tospace() {
    let mut plan = TripleSpace::new();
    let mut ctx = TripleSpaceCopyContext::new();
    ctx.init(OpaquePointer(5));
    ctx.prepare(&plan);
    assert_eq!(ctx.triplespace.space, Some(1));
    let mut objects = ObjectTable::new();
    let young = BASE + 0x10;
    objects.add(young, 40, 8);
    let mut edges = TripleSpaceProcessEdges::new(vec![], true);
    let r = edges.trace_object(&mut plan, &mut objects, &mut ctx, ObjectReference(young));
    assert_eq!(r, ObjectReference(BASE + E));
    assert!(plan.tospace().in_space(r));
    let again = edges.trace_object(&mut plan, &mut objects, &mut ctx, ObjectReference(young));
    assert_eq!(again, r);
    assert_eq!(edges.deref().nodes, vec![r]);
    let stays = edges.trace_object(&mut plan, &mut objects, &mut ctx, r);
    assert_eq!(stays, r);
    assert_eq!(edges.deref().nodes, vec![r]);
    assert!(edges.trace_object(&mut plan, &mut objects, &mut ctx, ObjectReference(0)).is_null());
}

#[test]
fn triplespace_trace_copies_fromspace_and_marks_common() {
    let mut plan = TripleSpace::new();
    let mut ctx = TripleSpaceCopyContext::new();
    ctx.prepare(&plan);
    let mut objects = ObjectTable::new();
    let old = BASE + 2 * E + 0x100;
    let imm = BASE + 3 * E + 0x100;
    objects.add(old, 16, 16);
    objects.add(imm, 16, 16);
    plan.common.prepare(OpaquePointer(1), true);
    let mut edges = TripleSpaceProcessEdges::default();
    let r = edges.trace_object(&mut plan, &mut objects, &mut ctx, ObjectReference(old));
    assert_eq!(r, ObjectReference(BASE + E));
    let m = edges.trace_object(&mut plan, &mut objects, &mut ctx, ObjectReference(imm));
    assert_eq!(m, ObjectReference(imm));
    assert_eq!(objects.get(m).unwrap().mark, 1);
    assert_eq!(edges.deref_mut().nodes.len(), 2);
    ctx.release();
    assert_eq!(ctx.triplespace.cursor, BASE + E + 16);
}

#[test]
fn collection_attempt_counter_wraps() {
    let mut base = BasePlan::new(mmtk::util::heap::heap_meta::HeapMeta::new(0x1000, 0x2000));
    base.max_collection_attempts = usize::MAX;
    base.set_collection_kind();
    assert_eq!(base.max_collection_attempts, 0);
    assert_eq!(base.cur_collection_attempts, 0);
    assert!(!base.emergency_collection);
}

#[test]
fn gc_init_rounds_pages_up() {
    let mut plan = MyGC::new();
    plan.gc_init(1);
    assert_eq!(plan.base().total_pages, 1);
    plan.gc_init(0);
    assert_eq!(plan.base().total_pages, 0);
    plan.gc_init(usize::MAX);
    assert_eq!(plan.base().total_pages, usize::MAX / 4096 + 1);
}
