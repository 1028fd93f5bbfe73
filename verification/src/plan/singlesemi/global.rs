use vstd::prelude::*;
use crate::plan::global::{heap_after, initialized_space, nth_space, BasePlan};
use crate::util::conversions::bytes_to_pages_spec;
use crate::plan::mutator_context::{Barrier, Mutator, MutatorHook};
use crate::plan::singlesemi::mutator::{
    allocator_mapping, allocator_mapping_spec, create_singlesemi_mutator,
};
use crate::policy::immortalspace::ImmortalSpace;
use crate::util::address::OpaquePointer;
use crate::util::allocator::allocators::{AllocatorMapping, AllocatorSelector};
use crate::util::heap::heap_meta::HeapMeta;
use crate::util::heap::layout::{heap_end, heap_start};
use crate::util::heap::vmrequest::VMRequest;

verus! {

/// A plan with a single space that never collects: every object is allocated in
/// the one space and lives for ever.
pub struct SingleSemi {
    pub base: BasePlan,
    pub singlesemi_space: ImmortalSpace,
}

impl SingleSemi {
    pub open spec fn wf(&self) -> bool {
        self.base.wf() && self.singlesemi_space.wf()
    }

    /// Makes the plan: its space is the first made from the heap.
    pub fn new() -> (r: Self)
        ensures
            r.wf(),
            r.singlesemi_space == (ImmortalSpace { common: nth_space("singlesemi_space", 0), mark_state: 0 }),
            r.base == BasePlan::new_spec(heap_after(1)),
    {
        let mut heap = HeapMeta::new(heap_start(), heap_end());
        assert(heap == heap_after(0));
        let singlesemi_space = ImmortalSpace::new("singlesemi_space", true, VMRequest::discontiguous(), &mut heap);
        assert(heap == heap_after(1));
        SingleSemi { singlesemi_space, base: BasePlan::new(heap) }
    }

    /// Sizes the heap and initialises the space.
    pub fn gc_init(&mut self, heap_size: usize)
        requires
            old(self).wf(),
        ensures
            final(self).wf(),
            *final(self) == (SingleSemi {
                base: BasePlan {
                    total_pages: bytes_to_pages_spec(heap_size as int) as usize,
                    ..old(self).base
                },
                singlesemi_space: ImmortalSpace {
                    common: initialized_space(old(self).singlesemi_space.common),
                    ..old(self).singlesemi_space
                },
            }),
    {
        self.base.gc_init(heap_size);
        self.singlesemi_space.init();
    }

    pub fn base(&self) -> (r: &BasePlan)
        ensures
            *r == self.base,
    {
        &self.base
    }

    /// Makes the allocation context of a mutator thread.
    pub fn bind_mutator(&self, tls: OpaquePointer) -> (r: Box<Mutator<'_, SingleSemi>>)
        ensures
            r.mutator_tls == tls,
            r.plan == self,
            r.allocators.bump_pointer@[0].space == Some(self.singlesemi_space.common.index),
            r.config.allocator_mapping == allocator_mapping_spec(),
            r.config.space_mapping@ == seq![
                (AllocatorSelector::BumpPointer(0), self.singlesemi_space.common.index),
            ],
            r.config.prepare_func == MutatorHook::Unreachable,
            r.config.release_func == MutatorHook::Unreachable,
            r.allocators.bound_by(tls, r.config.space_mapping@),
            r.barrier == Barrier::NoBarrier,
    {
        Box::new(create_singlesemi_mutator(tls, self))
    }

    pub fn get_allocator_mapping(&self) -> (r: AllocatorMapping)
        ensures
            r == allocator_mapping_spec(),
    {
        allocator_mapping()
    }

    /// The pages in use: those of the plan's one space.
    pub fn get_pages_used(&self) -> (r: usize)
        ensures
            r == self.singlesemi_space.common.reserved_pages,
    {
        self.singlesemi_space.reserved_pages()
    }
}

} // verus!
