use vstd::prelude::*;
use crate::plan::global::{
    common_gc_init_spec, initialized_space,
    common_pages_spec, heap_after, nth_space, semispace_wf, BasePlan, CommonPlan,
};
use crate::plan::mutator_context::{Barrier, Mutator, MutatorHook};
use crate::plan::withmut::mutator::{allocator_mapping, allocator_mapping_spec, create_withmut_mutator};
use crate::policy::copyspace::CopySpace;
use crate::policy::immortalspace::ImmortalSpace;
use crate::policy::space::{lemma_reserved_pages_bound, SpaceCommon};
use crate::util::address::OpaquePointer;
use crate::util::allocator::allocators::{AllocatorMapping, AllocatorSelector};
use crate::util::heap::heap_meta::HeapMeta;
use crate::util::heap::layout::{heap_end, heap_start};
use crate::util::heap::vmrequest::VMRequest;

verus! {

/// A plan with two copy spaces and mutators that allocate into the to-space, which
/// never collects: it exercises the mutator set-up of a semispace plan.
pub struct WithMut {
    pub hi: bool,
    pub copyspace0: CopySpace,
    pub copyspace1: CopySpace,
    pub common: CommonPlan,
}

impl WithMut {
    pub open spec fn tospace_spec(&self) -> CopySpace {
        if self.hi {
            self.copyspace1
        } else {
            self.copyspace0
        }
    }

    pub open spec fn fromspace_spec(&self) -> CopySpace {
        if self.hi {
            self.copyspace0
        } else {
            self.copyspace1
        }
    }

    pub open spec fn wf(&self) -> bool {
        semispace_wf(self.hi, self.copyspace0, self.copyspace1, self.common)
    }

    /// Makes the plan: copy space 0 is the to-space and copy space 1 the from-space;
    /// the common spaces follow them.
    pub fn new() -> (r: Self)
        ensures
            r.wf(),
            !r.hi,
            r.copyspace0 == (CopySpace { common: nth_space("copyspace0", 0), from_space: false }),
            r.copyspace1 == (CopySpace { common: nth_space("copyspace1", 1), from_space: true }),
            r.common.immortal == (ImmortalSpace { common: nth_space("immortal", 2), mark_state: 0 }),
            r.common.los == (ImmortalSpace { common: nth_space("los", 3), mark_state: 0 }),
            r.common.base == BasePlan::new_spec(heap_after(4)),
    {
        let mut heap = HeapMeta::new(heap_start(), heap_end());
        assert(heap == heap_after(0));
        let copyspace0 = CopySpace::new("copyspace0", false, true, VMRequest::discontiguous(), &mut heap);
        assert(heap == heap_after(1));
        let copyspace1 = CopySpace::new("copyspace1", true, true, VMRequest::discontiguous(), &mut heap);
        assert(heap == heap_after(2));
        assert(heap_after(3) == SpaceCommon::new_heap_spec(VMRequest::discontiguous_spec(), heap_after(2)));
        assert(heap_after(4) == SpaceCommon::new_heap_spec(VMRequest::discontiguous_spec(), heap_after(3)));
        WithMut { hi: false, copyspace0, copyspace1, common: CommonPlan::new(heap) }
    }

    /// Sizes the heap and initialises the spaces.
    pub fn gc_init(&mut self, heap_size: usize)
        requires
            old(self).wf(),
        ensures
            final(self).wf(),
            *final(self) == (WithMut {
                copyspace0: CopySpace { common: initialized_space(old(self).copyspace0.common), ..old(self).copyspace0 },
                copyspace1: CopySpace { common: initialized_space(old(self).copyspace1.common), ..old(self).copyspace1 },
                common: common_gc_init_spec(old(self).common, heap_size),
                ..*old(self)
            }),
    {
        self.common.gc_init(heap_size);
        self.copyspace0.init();
        self.copyspace1.init();
    }

    pub fn base(&self) -> (r: &BasePlan)
        ensures
            *r == self.common.base,
    {
        &self.common.base
    }

    pub fn common(&self) -> (r: &CommonPlan)
        ensures
            *r == self.common,
    {
        &self.common
    }

    /// Makes the allocation context of a mutator thread.
    pub fn bind_mutator(&self, tls: OpaquePointer) -> (r: Box<Mutator<'_, WithMut>>)
        ensures
            r.mutator_tls == tls,
            r.plan == self,
            r.allocators.bump_pointer@[0].space == Some(self.tospace_spec().common.index),
            r.allocators.bump_pointer@[1].space == Some(self.common.immortal.common.index),
            r.allocators.large_object@[0].space == Some(self.common.los.common.index),
            r.config.allocator_mapping == allocator_mapping_spec(),
            r.config.space_mapping@ == seq![
                (AllocatorSelector::BumpPointer(0), self.tospace_spec().common.index),
                (AllocatorSelector::BumpPointer(1), self.common.immortal.common.index),
                (AllocatorSelector::LargeObject(0), self.common.los.common.index),
            ],
            r.config.prepare_func == MutatorHook::Unreachable,
            r.config.release_func == MutatorHook::Unreachable,
            r.allocators.bound_by(tls, r.config.space_mapping@),
            r.barrier == Barrier::NoBarrier,
    {
        Box::new(create_withmut_mutator(tls, self))
    }

    pub fn get_allocator_mapping(&self) -> (r: AllocatorMapping)
        ensures
            r == allocator_mapping_spec(),
    {
        allocator_mapping()
    }

    /// The pages in use: those of the to-space and of the common spaces.
    pub fn get_pages_used(&self) -> (r: usize)
        requires
            self.wf(),
        ensures
            r == self.tospace_spec().common.reserved_pages + common_pages_spec(self.common),
            r == (if self.hi {
                self.copyspace1.common.reserved_pages
            } else {
                self.copyspace0.common.reserved_pages
            }) + self.common.immortal.common.reserved_pages + self.common.los.common.reserved_pages,
    {
        proof {
            lemma_reserved_pages_bound(self.copyspace0.common);
            lemma_reserved_pages_bound(self.copyspace1.common);
            lemma_reserved_pages_bound(self.common.immortal.common);
            lemma_reserved_pages_bound(self.common.los.common);
        }
        self.tospace().reserved_pages() + self.common.get_pages_used()
    }

    /// Copy space 1 when `hi` holds, copy space 0 otherwise.
    pub fn tospace(&self) -> (r: &CopySpace)
        ensures
            *r == self.tospace_spec(),
    {
        if self.hi {
            &self.copyspace1
        } else {
            &self.copyspace0
        }
    }

    /// The copy space that is not the to-space.
    pub fn fromspace(&self) -> (r: &CopySpace)
        ensures
            *r == self.fromspace_spec(),
    {
        if self.hi {
            &self.copyspace0
        } else {
            &self.copyspace1
        }
    }
}

} // verus!
