use mmtk::plan::mutator_context::{Barrier, MutatorHook};
use mmtk::plan::singlesemi::mutator::create_singlesemi_mutator;
use mmtk::plan::singlesemi::SingleSemi;
use mmtk::plan::triplespace::mutator::{
    create_triplespace_mutator, triplespace_mutator_prepare, triplespace_mutator_release,
};
use mmtk::plan::triplespace::TripleSpace;
use mmtk::plan::withmut::mutator::create_withmut_mutator;
use mmtk::plan::withmut::WithMut;
use mmtk::plan::AllocationSemantics;
use mmtk::util::allocator::allocators::{AllocatorSelector, Allocators, LargeObjectAllocator};
use mmtk::util::OpaquePointer;

#[test]
fn withmut_mutator_binds_tospace_immortal_and_los() {
    let plan = WithMut::new();
    let m = create_withmut_mutator(OpaquePointer(7), &plan);
    assert_eq!(
        m.config.space_mapping,
        vec![
            (AllocatorSelector::BumpPointer(0), 0),
            (AllocatorSelector::BumpPointer(1), 2),
            (AllocatorSelector::LargeObject(0), 3),
        ]
    );
    assert_eq!(m.allocators.bump_pointer[0].space, Some(0));
    assert_eq!(m.allocators.bump_pointer[1].space, Some(2));
    assert_eq!(m.allocators.large_object[0], LargeObjectAllocator { tls: OpaquePointer(7), space: Some(3) });
    assert_eq!(m.allocators.bump_pointer[0].tls, OpaquePointer(7));
    assert_eq!(m.config.prepare_func, MutatorHook::Unreachable);
    assert_eq!(m.config.release_func, MutatorHook::Unreachable);
    assert_eq!(m.barrier, Barrier::NoBarrier);
    assert_eq!(m.mutator_tls, OpaquePointer(7));
    assert_eq!(m.config.allocator_mapping.get(AllocationSemantics::Default), AllocatorSelector::BumpPointer(0));
    assert_eq!(m.config.allocator_mapping.get(AllocationSemantics::Code), AllocatorSelector::BumpPointer(1));
    assert_eq!(m.config.allocator_mapping.get(AllocationSemantics::Los), AllocatorSelector::LargeObject(0));
}

#[test]
fn withmut_bind_mutator_and_mapping() {
    let plan = WithMut::new();
    let m = plan.bind_mutator(OpaquePointer(9));
    assert_eq!(m.allocators.bump_pointer[0].space, Some(plan.tospace().common.index));
    let mapping = plan.get_allocator_mapping();
    assert_eq!(mapping.get(AllocationSemantics::Immortal), AllocatorSelector::BumpPointer(1));
    assert_eq!(mapping.get(AllocationSemantics::ReadOnly), AllocatorSelector::BumpPointer(1));
}

#[test]
fn singlesemi_mutator_binds_its_space_only() {
    let plan = SingleSemi::new();
    let m = create_singlesemi_mutator(OpaquePointer(4), &plan);
    assert_eq!(m.config.space_mapping, vec![(AllocatorSelector::BumpPointer(0), 0)]);
    assert_eq!(m.allocators.bump_pointer[0].space, Some(0));
    assert_eq!(m.allocators.bump_pointer[1].space, None);
    assert_eq!(m.allocators.large_object[0].space, None);
    for s in [
        AllocationSemantics::Default,
        AllocationSemantics::Immortal,
        AllocationSemantics::Los,
        AllocationSemantics::Code,
        AllocationSemantics::ReadOnly,
    ] {
        assert_eq!(plan.get_allocator_mapping().get(s), AllocatorSelector::BumpPointer(0));
    }
    let b = plan.bind_mutator(OpaquePointer(4));
    assert_eq!(b.config.space_mapping, m.config.space_mapping);
}

#[test]
fn triplespace_mutator_binds_youngspace() {
    let plan = TripleSpace::new();
    let m = create_triplespace_mutator(OpaquePointer(3), &plan);
    assert_eq!(
        m.config.space_mapping,
        vec![
            (AllocatorSelector::BumpPointer(0), 0),
            (AllocatorSelector::BumpPointer(1), 3),
            (AllocatorSelector::LargeObject(0), 4),
        ]
    );
    assert_eq!(m.allocators.bump_pointer[0].space, Some(0));
    assert_eq!(m.config.prepare_func, MutatorHook::Nothing);
    assert_eq!(m.config.release_func, MutatorHook::RebindToYoungspace);
}

#[test]
fn triplespace_mutator_release_rebinds_default_allocator() {
    let plan = TripleSpace::new();
    let mut m = create_triplespace_mutator(OpaquePointer(3), &plan);
    m.allocators.bump_pointer[0].rebind(Some(1));
    m.allocators.bump_pointer[0].cursor = 0x100;
    m.allocators.bump_pointer[0].limit = 0x200;
    triplespace_mutator_prepare(&mut m, OpaquePointer(3));
    assert_eq!(m.allocators.bump_pointer[0].space, Some(1));
    assert_eq!(m.allocators.bump_pointer[0].cursor, 0x100);
    triplespace_mutator_release(&mut m, OpaquePointer(3));
    assert_eq!(m.allocators.bump_pointer[0].space, Some(plan.youngspace().common.index));
    assert_eq!((m.allocators.bump_pointer[0].cursor, m.allocators.bump_pointer[0].limit), (0, 0));
    assert_eq!(m.allocators.bump_pointer[1].space, Some(3));
}

#[test]
fn allocators_new_takes_last_mapping_entry() {
    let mapping = vec![
        (AllocatorSelector::BumpPointer(1), 5),
        (AllocatorSelector::BumpPointer(1), 6),
        (AllocatorSelector::LargeObject(0), 7),
    ];
    let a = Allocators::new(OpaquePointer(2), &mapping);
    assert_eq!(a.bump_pointer.len(), 2);
    assert_eq!(a.bump_pointer[0].space, None);
    assert_eq!(a.bump_pointer[1].space, Some(6));
    assert_eq!(a.large_object[0].space, Some(7));
}

#[test]
fn triplespace_mutator_hooks_dispatch() {
    let plan = TripleSpace::new();
    let mut m = create_triplespace_mutator(OpaquePointer(3), &plan);
    m.allocators.bump_pointer[0].rebind(Some(2));
    m.allocators.bump_pointer[0].cursor = 0x100;
    m.allocators.bump_pointer[0].limit = 0x200;
    m.prepare(OpaquePointer(3));
    assert_eq!(m.allocators.bump_pointer[0].space, Some(2));
    assert_eq!(m.allocators.bump_pointer[0].cursor, 0x100);
    m.release(OpaquePointer(3));
    assert_eq!(m.allocators.bump_pointer[0].space, Some(0));
    assert_eq!((m.allocators.bump_pointer[0].cursor, m.allocators.bump_pointer[0].limit), (0, 0));
    assert_eq!(m.allocators.bump_pointer[1].space, Some(3));
}
