use vstd::prelude::*;
use crate::plan::mutator_context::{Barrier, Mutator, MutatorConfig, MutatorHook};
use crate::plan::triplespace::global::TripleSpace;
use crate::plan::AllocationSemantics;
use crate::util::address::OpaquePointer;
use crate::util::allocator::allocators::{
    mapped_space, AllocatorMapping, AllocatorSelector, Allocators,
};
use crate::util::allocator::bump_allocator::BumpAllocator;

verus! {

/// Default allocation goes to the first bump-pointer allocator; immortal, code and
/// read-only allocation to the second; large objects to the large-object allocator.
pub open spec fn allocator_mapping_spec() -> AllocatorMapping {
    AllocatorMapping {
        default: AllocatorSelector::BumpPointer(0),
        immortal: AllocatorSelector::BumpPointer(1),
        los: AllocatorSelector::LargeObject(0),
        code: AllocatorSelector::BumpPointer(1),
        read_only: AllocatorSelector::BumpPointer(1),
    }
}

pub fn allocator_mapping() -> (r: AllocatorMapping)
    ensures
        r == allocator_mapping_spec(),
{
    AllocatorMapping {
        default: AllocatorSelector::BumpPointer(0),
        immortal: AllocatorSelector::BumpPointer(1),
        los: AllocatorSelector::LargeObject(0),
        code: AllocatorSelector::BumpPointer(1),
        read_only: AllocatorSelector::BumpPointer(1),
    }
}

/// The bump-pointer allocators of `m` after its default allocator was bound to the
/// young space again.
pub open spec fn rebound_to_youngspace(m: Mutator<'_, TripleSpace>) -> Seq<BumpAllocator> {
    let i = m.config.allocator_mapping.get_spec(AllocationSemantics::Default)->BumpPointer_0 as int;
    m.allocators.bump_pointer@.update(
        i,
        BumpAllocator {
            space: Some(m.plan.youngspace.common.index),
            cursor: 0,
            limit: 0,
            ..m.allocators.bump_pointer@[i]
        },
    )
}

/// Whether `hook` can run on `m`: it is one that the plan calls, and a hook that
/// rebinds the default allocator finds a bump-pointer allocator there.
pub open spec fn hook_runs_on(m: Mutator<'_, TripleSpace>, hook: MutatorHook) -> bool {
    match hook {
        MutatorHook::Unreachable => false,
        MutatorHook::Nothing => true,
        MutatorHook::RebindToYoungspace => {
            let selector = m.config.allocator_mapping.get_spec(AllocationSemantics::Default);
            selector matches AllocatorSelector::BumpPointer(i) && (i as int)
                < m.allocators.bump_pointer@.len()
        },
    }
}

/// A collection prepares the mutator: nothing changes.
pub fn triplespace_mutator_prepare(mutator: &mut Mutator<'_, TripleSpace>, tls: OpaquePointer)
    ensures
        *final(mutator) == *old(mutator),
{
}

/// A collection releases the mutator: the allocator that serves default allocation,
/// a bump-pointer allocator, drops its block and is bound to the young space again.
pub fn triplespace_mutator_release(mutator: &mut Mutator<'_, TripleSpace>, tls: OpaquePointer)
    requires
        ({
            let selector = old(mutator).config.allocator_mapping.get_spec(AllocationSemantics::Default);
            selector matches AllocatorSelector::BumpPointer(i) && (i as int) < old(mutator).allocators.bump_pointer@.len()
        }),
    ensures
        ({
            &&& final(mutator).allocators.bump_pointer@ == rebound_to_youngspace(*old(mutator))
            &&& final(mutator).allocators.large_object@ == old(mutator).allocators.large_object@
            &&& final(mutator).config == old(mutator).config
            &&& final(mutator).plan == old(mutator).plan
            &&& final(mutator).mutator_tls == old(mutator).mutator_tls
            &&& final(mutator).barrier == old(mutator).barrier
        }),
{
    let young = mutator.plan.youngspace().common.index;
    match mutator.config.allocator_mapping.get(AllocationSemantics::Default) {
        AllocatorSelector::BumpPointer(index) => {
            let bump_allocator = mutator.allocators.bump_allocator_mut(index);
            bump_allocator.rebind(Some(young));
        },
        AllocatorSelector::LargeObject(_) => {
            proof {
                assert(false);
            }
        },
    }
}

/// Makes a mutator whose default allocator allocates into the young space, whose
/// second bump-pointer allocator allocates into the immortal space and whose
/// large-object allocator allocates into the large-object space; releasing it binds
/// the default allocator to the young space again.
pub fn create_triplespace_mutator<'a>(mutator_tls: OpaquePointer, plan: &'a TripleSpace) -> (r: Mutator<'a, TripleSpace>)
    ensures
        r.config.allocator_mapping == allocator_mapping_spec(),
        r.config.space_mapping@ == seq![
            (AllocatorSelector::BumpPointer(0), plan.youngspace.common.index),
            (AllocatorSelector::BumpPointer(1), plan.common.immortal.common.index),
            (AllocatorSelector::LargeObject(0), plan.common.los.common.index),
        ],
        r.config.space_mapping@ == triplespace_space_mapping(*plan),
        r.config.prepare_func == MutatorHook::Nothing,
        r.config.release_func == MutatorHook::RebindToYoungspace,
        r.allocators.bound_by(mutator_tls, r.config.space_mapping@),
        r.allocators.bump_pointer@[0].space == Some(plan.youngspace.common.index),
        r.allocators.bump_pointer@[1].space == Some(plan.common.immortal.common.index),
        r.allocators.large_object@[0].space == Some(plan.common.los.common.index),
        r.barrier == Barrier::NoBarrier,
        r.mutator_tls == mutator_tls,
        r.plan == plan,
{
    let config = MutatorConfig {
        allocator_mapping: allocator_mapping(),
        space_mapping: vec![
            (AllocatorSelector::BumpPointer(0), plan.youngspace().common.index),
            (AllocatorSelector::BumpPointer(1), plan.common.get_immortal().common.index),
            (AllocatorSelector::LargeObject(0), plan.common.get_los().common.index),
        ],
        prepare_func: MutatorHook::Nothing,
        release_func: MutatorHook::RebindToYoungspace,
    };
    proof {
        reveal_with_fuel(mapped_space, 4);
    }
    Mutator {
        allocators: Allocators::new(mutator_tls, &config.space_mapping),
        barrier: Barrier::NoBarrier,
        mutator_tls,
        config,
        plan,
    }
}

impl<'a> Mutator<'a, TripleSpace> {
    /// Runs the hook that the mutator's configuration names for `hook`.
    fn run_hook(&mut self, hook: MutatorHook, tls: OpaquePointer)
        requires
            hook_runs_on(*old(self), hook),
        ensures
            hook == MutatorHook::Nothing ==> *final(self) == *old(self),
            hook == MutatorHook::RebindToYoungspace ==> ({
                &&& final(self).allocators.bump_pointer@ == rebound_to_youngspace(*old(self))
                &&& final(self).allocators.large_object@ == old(self).allocators.large_object@
                &&& final(self).config == old(self).config
                &&& final(self).plan == old(self).plan
                &&& final(self).mutator_tls == old(self).mutator_tls
                &&& final(self).barrier == old(self).barrier
            }),
    {
        match hook {
            MutatorHook::Nothing => triplespace_mutator_prepare(self, tls),
            MutatorHook::RebindToYoungspace => triplespace_mutator_release(self, tls),
            MutatorHook::Unreachable => {
                proof {
                    assert(false);
                }
            },
        }
    }

    /// A collection prepares the mutator: its prepare hook runs.
    pub fn prepare(&mut self, tls: OpaquePointer)
        requires
            hook_runs_on(*old(self), old(self).config.prepare_func),
        ensures
            old(self).config.prepare_func == MutatorHook::Nothing ==> *final(self) == *old(self),
            old(self).config.prepare_func == MutatorHook::RebindToYoungspace ==> ({
                &&& final(self).allocators.bump_pointer@ == rebound_to_youngspace(*old(self))
                &&& final(self).allocators.large_object@ == old(self).allocators.large_object@
                &&& final(self).config == old(self).config
                &&& final(self).plan == old(self).plan
                &&& final(self).mutator_tls == old(self).mutator_tls
                &&& final(self).barrier == old(self).barrier
            }),
    {
        let hook = self.config.prepare_func;
        self.run_hook(hook, tls);
    }

    /// A collection releases the mutator: its release hook runs.
    pub fn release(&mut self, tls: OpaquePointer)
        requires
            hook_runs_on(*old(self), old(self).config.release_func),
        ensures
            old(self).config.release_func == MutatorHook::Nothing ==> *final(self) == *old(self),
            old(self).config.release_func == MutatorHook::RebindToYoungspace ==> ({
                &&& final(self).allocators.bump_pointer@ == rebound_to_youngspace(*old(self))
                &&& final(self).allocators.large_object@ == old(self).allocators.large_object@
                &&& final(self).config == old(self).config
                &&& final(self).plan == old(self).plan
                &&& final(self).mutator_tls == old(self).mutator_tls
                &&& final(self).barrier == old(self).barrier
            }),
    {
        let hook = self.config.release_func;
        self.run_hook(hook, tls);
    }
}

/// The space mapping that `create_triplespace_mutator` gives a mutator of `plan`.
pub open spec fn triplespace_space_mapping(plan: TripleSpace) -> Seq<(AllocatorSelector, usize)> {
    seq![
        (AllocatorSelector::BumpPointer(0), plan.youngspace.common.index),
        (AllocatorSelector::BumpPointer(1), plan.common.immortal.common.index),
        (AllocatorSelector::LargeObject(0), plan.common.los.common.index),
    ]
}

/// A mutator of the three-space plan allocates default objects into the young
/// space, large objects into the large-object space, and immortal, code and
/// read-only objects into the immortal space: the allocator that the mapping picks
/// for each kind is bound to that space.
pub proof fn lemma_allocation_kinds_reach_their_spaces(plan: TripleSpace)
    ensures
        mapped_space(triplespace_space_mapping(plan), allocator_mapping_spec().get_spec(AllocationSemantics::Default))
            == Some(plan.youngspace.common.index),
        mapped_space(triplespace_space_mapping(plan), allocator_mapping_spec().get_spec(AllocationSemantics::Los))
            == Some(plan.common.los.common.index),
        mapped_space(triplespace_space_mapping(plan), allocator_mapping_spec().get_spec(AllocationSemantics::Immortal))
            == Some(plan.common.immortal.common.index),
        mapped_space(triplespace_space_mapping(plan), allocator_mapping_spec().get_spec(AllocationSemantics::Code))
            == Some(plan.common.immortal.common.index),
        mapped_space(triplespace_space_mapping(plan), allocator_mapping_spec().get_spec(AllocationSemantics::ReadOnly))
            == Some(plan.common.immortal.common.index),
        allocator_mapping_spec().get_spec(AllocationSemantics::Default) is BumpPointer,
{
    reveal_with_fuel(mapped_space, 4);
}

} // verus!
