use vstd::prelude::*;
use crate::plan::mutator_context::{Barrier, Mutator, MutatorConfig, MutatorHook};
use crate::plan::withmut::global::WithMut;
use crate::plan::AllocationSemantics;
use crate::util::address::OpaquePointer;
use crate::util::allocator::allocators::{
    mapped_space, AllocatorMapping, AllocatorSelector, Allocators,
};

verus! {

/// Default allocation goes to the first bump-pointer allocator; immortal, code and
/// read-only allocation to the second; large objects to the large-object allocator.
pub open spec fn allocator_mapping_spec() -> AllocatorMapping {
    AllocatorMapping {
        default: AllocatorSelector::BumpPointer(0),
        immortal: AllocatorSelector::BumpPointer(1),
        los: AllocatorSelector::LargeObject(0),
        code: AllocatorSelector::BumpPointer(1),
        read_only: AllocatorSelector::BumpPointer(1),
    }
}

pub fn allocator_mapping() -> (r: AllocatorMapping)
    ensures
        r == allocator_mapping_spec(),
{
    AllocatorMapping {
        default: AllocatorSelector::BumpPointer(0),
        immortal: AllocatorSelector::BumpPointer(1),
        los: AllocatorSelector::LargeObject(0),
        code: AllocatorSelector::BumpPointer(1),
        read_only: AllocatorSelector::BumpPointer(1),
    }
}

/// Makes a mutator whose default allocator allocates into the to-space, whose
/// second bump-pointer allocator allocates into the immortal space and whose
/// large-object allocator allocates into the large-object space. The plan never
/// collects, so it never prepares or releases the mutator.
pub fn create_withmut_mutator<'a>(mutator_tls: OpaquePointer, plan: &'a WithMut) -> (r: Mutator<'a, WithMut>)
    ensures
        r.config.allocator_mapping == allocator_mapping_spec(),
        r.config.space_mapping@ == seq![
            (AllocatorSelector::BumpPointer(0), plan.tospace_spec().common.index),
            (AllocatorSelector::BumpPointer(1), plan.common.immortal.common.index),
            (AllocatorSelector::LargeObject(0), plan.common.los.common.index),
        ],
        r.config.space_mapping@ == withmut_space_mapping(*plan),
        r.config.prepare_func == MutatorHook::Unreachable,
        r.config.release_func == MutatorHook::Unreachable,
        r.allocators.bound_by(mutator_tls, r.config.space_mapping@),
        r.allocators.bump_pointer@[0].space == Some(plan.tospace_spec().common.index),
        r.allocators.bump_pointer@[1].space == Some(plan.common.immortal.common.index),
        r.allocators.large_object@[0].space == Some(plan.common.los.common.index),
        r.barrier == Barrier::NoBarrier,
        r.mutator_tls == mutator_tls,
        r.plan == plan,
{
    let config = MutatorConfig {
        allocator_mapping: allocator_mapping(),
        space_mapping: vec![
            (AllocatorSelector::BumpPointer(0), plan.tospace().common.index),
            (AllocatorSelector::BumpPointer(1), plan.common.get_immortal().common.index),
            (AllocatorSelector::LargeObject(0), plan.common.get_los().common.index),
        ],
        prepare_func: MutatorHook::Unreachable,
        release_func: MutatorHook::Unreachable,
    };
    proof {
        reveal_with_fuel(mapped_space, 4);
    }
    Mutator {
        allocators: Allocators::new(mutator_tls, &config.space_mapping),
        barrier: Barrier::NoBarrier,
        mutator_tls,
        config,
        plan,
    }
}

/// The space mapping that `create_withmut_mutator` gives a mutator of `plan`.
pub open spec fn withmut_space_mapping(plan: WithMut) -> Seq<(AllocatorSelector, usize)> {
    seq![
        (AllocatorSelector::BumpPointer(0), plan.tospace_spec().common.index),
        (AllocatorSelector::BumpPointer(1), plan.common.immortal.common.index),
        (AllocatorSelector::LargeObject(0), plan.common.los.common.index),
    ]
}

/// A mutator of this plan allocates default objects into the to-space (the copy
/// space that `hi` names), large objects into the large-object space, and immortal,
/// code and read-only objects into the immortal space.
pub proof fn lemma_allocation_kinds_reach_their_spaces(plan: WithMut)
    ensures
        mapped_space(withmut_space_mapping(plan), allocator_mapping_spec().get_spec(AllocationSemantics::Default))
            == Some(if plan.hi { plan.copyspace1.common.index } else { plan.copyspace0.common.index }),
        mapped_space(withmut_space_mapping(plan), allocator_mapping_spec().get_spec(AllocationSemantics::Los))
            == Some(plan.common.los.common.index),
        mapped_space(withmut_space_mapping(plan), allocator_mapping_spec().get_spec(AllocationSemantics::Immortal))
            == Some(plan.common.immortal.common.index),
        mapped_space(withmut_space_mapping(plan), allocator_mapping_spec().get_spec(AllocationSemantics::Code))
            == Some(plan.common.immortal.common.index),
        mapped_space(withmut_space_mapping(plan), allocator_mapping_spec().get_spec(AllocationSemantics::ReadOnly))
            == Some(plan.common.immortal.common.index),
{
    reveal_with_fuel(mapped_space, 4);
}

} // verus!
