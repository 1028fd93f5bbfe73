use vstd::prelude::*;
use crate::plan::mutator_context::{Barrier, Mutator, MutatorConfig, MutatorHook};
use crate::plan::singlesemi::global::SingleSemi;
use crate::plan::AllocationSemantics;
use crate::util::address::OpaquePointer;
use crate::util::allocator::allocators::{
    mapped_space, AllocatorMapping, AllocatorSelector, Allocators,
};

verus! {

/// Every kind of allocation goes to the first bump-pointer allocator.
pub open spec fn allocator_mapping_spec() -> AllocatorMapping {
    AllocatorMapping {
        default: AllocatorSelector::BumpPointer(0),
        immortal: AllocatorSelector::BumpPointer(0),
        los: AllocatorSelector::BumpPointer(0),
        code: AllocatorSelector::BumpPointer(0),
        read_only: AllocatorSelector::BumpPointer(0),
    }
}

pub fn allocator_mapping() -> (r: AllocatorMapping)
    ensures
        r == allocator_mapping_spec(),
{
    AllocatorMapping {
        default: AllocatorSelector::BumpPointer(0),
        immortal: AllocatorSelector::BumpPointer(0),
        los: AllocatorSelector::BumpPointer(0),
        code: AllocatorSelector::BumpPointer(0),
        read_only: AllocatorSelector::BumpPointer(0),
    }
}

/// Makes a mutator whose one bump-pointer allocator allocates into the plan's
/// space. The plan never collects, so it never prepares or releases the mutator.
pub fn create_singlesemi_mutator<'a>(mutator_tls: OpaquePointer, plan: &'a SingleSemi) -> (r: Mutator<'a, SingleSemi>)
    ensures
        r.config.allocator_mapping == allocator_mapping_spec(),
        r.config.space_mapping@ == seq![
            (AllocatorSelector::BumpPointer(0), plan.singlesemi_space.common.index),
        ],
        r.config.space_mapping@ == singlesemi_space_mapping(*plan),
        r.config.prepare_func == MutatorHook::Unreachable,
        r.config.release_func == MutatorHook::Unreachable,
        r.allocators.bound_by(mutator_tls, r.config.space_mapping@),
        r.allocators.bump_pointer@[0].space == Some(plan.singlesemi_space.common.index),
        r.allocators.bump_pointer@[1].space is None,
        r.allocators.large_object@[0].space is None,
        r.barrier == Barrier::NoBarrier,
        r.mutator_tls == mutator_tls,
        r.plan == plan,
{
    let config = MutatorConfig {
        allocator_mapping: allocator_mapping(),
        space_mapping: vec![(AllocatorSelector::BumpPointer(0), plan.singlesemi_space.common.index)],
        prepare_func: MutatorHook::Unreachable,
        release_func: MutatorHook::Unreachable,
    };
    proof {
        reveal_with_fuel(mapped_space, 2);
    }
    Mutator {
        allocators: Allocators::new(mutator_tls, &config.space_mapping),
        barrier: Barrier::NoBarrier,
        mutator_tls,
        config,
        plan,
    }
}

/// The space mapping that `create_singlesemi_mutator` gives a mutator of `plan`.
pub open spec fn singlesemi_space_mapping(plan: SingleSemi) -> Seq<(AllocatorSelector, usize)> {
    seq![(AllocatorSelector::BumpPointer(0), plan.singlesemi_space.common.index)]
}

/// A mutator of the single-space plan allocates every kind of object into the
/// plan's one space.
pub proof fn lemma_allocation_kinds_reach_their_spaces(plan: SingleSemi, kind: AllocationSemantics)
    ensures
        mapped_space(singlesemi_space_mapping(plan), allocator_mapping_spec().get_spec(kind))
            == Some(plan.singlesemi_space.common.index),
{
    reveal_with_fuel(mapped_space, 2);
}

} // verus!
