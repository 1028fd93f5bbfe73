use vstd::prelude::*;
use crate::plan::global::{heap_after, nth_space, semispace_wf, BasePlan, CommonPlan};
use crate::plan::{AllocationSemantics, CopyContext};
use crate::policy::copyspace::{copy_trace_objects, copy_trace_result, CopySpace};
use crate::policy::immortalspace::ImmortalSpace;
use crate::policy::space::{disjoint, SpaceCommon};
use crate::scheduler::gc_works::ProcessEdgesBase;
use crate::util::address::ObjectReference;
use crate::util::allocator::bump_allocator::bump_alloc_spec;
use crate::util::heap::heap_meta::HeapMeta;
use crate::util::heap::layout::{heap_end, heap_start};
use crate::util::heap::vmrequest::VMRequest;
use crate::util::object_model::ObjectTable;

verus! {

/// The allocation semantics of the copies that a collection makes.
pub const ALLOC_TripleSpace: AllocationSemantics = AllocationSemantics::Default;

/// A plan with a young space that mutators allocate into and two copy spaces:
/// a collection copies the live objects of the young space and of the from-space
/// into the to-space.
pub struct TripleSpace {
    pub hi: bool,
    pub youngspace: CopySpace,
    pub copyspace0: CopySpace,
    pub copyspace1: CopySpace,
    pub common: CommonPlan,
}

/// `p` with the to-space's common state replaced by `s`.
pub open spec fn with_tospace_common(p: TripleSpace, s: SpaceCommon) -> TripleSpace {
    if p.hi {
        TripleSpace { copyspace1: CopySpace { common: s, ..p.copyspace1 }, ..p }
    } else {
        TripleSpace { copyspace0: CopySpace { common: s, ..p.copyspace0 }, ..p }
    }
}

/// Replacing the to-space's state by one with the same identity and range keeps the
/// plan well formed.
pub proof fn lemma_with_tospace_common_wf(p: TripleSpace, s: SpaceCommon)
    requires
        p.wf(),
        s.wf(),
        s.index == p.tospace_spec().common.index,
        s.contiguous == p.tospace_spec().common.contiguous,
        s.start == p.tospace_spec().common.start,
        s.extent == p.tospace_spec().common.extent,
    ensures
        with_tospace_common(p, s).wf(),
        with_tospace_common(p, s).tospace_spec().common == s,
        with_tospace_common(p, s).fromspace_spec() == p.fromspace_spec(),
        with_tospace_common(p, s).youngspace == p.youngspace,
        with_tospace_common(p, s).common == p.common,
{
}

impl TripleSpace {
    pub open spec fn tospace_spec(&self) -> CopySpace {
        if self.hi {
            self.copyspace1
        } else {
            self.copyspace0
        }
    }

    pub open spec fn fromspace_spec(&self) -> CopySpace {
        if self.hi {
            self.copyspace0
        } else {
            self.copyspace1
        }
    }

    /// The copy spaces and common spaces are as in a semispace plan, and the young
    /// space is well formed, owns its own range and has its own index.
    pub open spec fn wf(&self) -> bool {
        &&& semispace_wf(self.hi, self.copyspace0, self.copyspace1, self.common)
        &&& self.youngspace.wf()
        &&& self.youngspace.common.index != self.copyspace0.common.index
        &&& self.youngspace.common.index != self.copyspace1.common.index
        &&& disjoint(self.youngspace.common, self.copyspace0.common)
        &&& disjoint(self.youngspace.common, self.copyspace1.common)
        &&& disjoint(self.youngspace.common, self.common.immortal.common)
        &&& disjoint(self.youngspace.common, self.common.los.common)
    }

    /// Makes the plan: the young space, which a collection evacuates, then copy
    /// space 0, the to-space, and copy space 1, the from-space; the common spaces
    /// follow them.
    pub fn new() -> (r: Self)
        ensures
            r.wf(),
            !r.hi,
            r.youngspace == (CopySpace { common: nth_space("youngspace", 0), from_space: true }),
            r.copyspace0 == (CopySpace { common: nth_space("copyspace0", 1), from_space: false }),
            r.copyspace1 == (CopySpace { common: nth_space("copyspace1", 2), from_space: true }),
            r.common.immortal == (ImmortalSpace { common: nth_space("immortal", 3), mark_state: 0 }),
            r.common.los == (ImmortalSpace { common: nth_space("los", 4), mark_state: 0 }),
            r.common.base == BasePlan::new_spec(heap_after(5)),
    {
        let mut heap = HeapMeta::new(heap_start(), heap_end());
        assert(heap == heap_after(0));
        let youngspace = CopySpace::new("youngspace", true, true, VMRequest::discontiguous(), &mut heap);
        assert(heap == heap_after(1));
        let copyspace0 = CopySpace::new("copyspace0", false, true, VMRequest::discontiguous(), &mut heap);
        assert(heap == heap_after(2));
        let copyspace1 = CopySpace::new("copyspace1", true, true, VMRequest::discontiguous(), &mut heap);
        assert(heap == heap_after(3));
        assert(heap_after(4) == SpaceCommon::new_heap_spec(VMRequest::discontiguous_spec(), heap_after(3)));
        assert(heap_after(5) == SpaceCommon::new_heap_spec(VMRequest::discontiguous_spec(), heap_after(4)));
        TripleSpace { hi: false, youngspace, copyspace0, copyspace1, common: CommonPlan::new(heap) }
    }

    pub fn youngspace(&self) -> (r: &CopySpace)
        ensures
            *r == self.youngspace,
    {
        &self.youngspace
    }

    /// Copy space 1 when `hi` holds, copy space 0 otherwise.
    pub fn tospace(&self) -> (r: &CopySpace)
        ensures
            *r == self.tospace_spec(),
    {
        if self.hi {
            &self.copyspace1
        } else {
            &self.copyspace0
        }
    }

    /// The copy space that is not the to-space.
    pub fn fromspace(&self) -> (r: &CopySpace)
        ensures
            *r == self.fromspace_spec(),
    {
        if self.hi {
            &self.copyspace0
        } else {
            &self.copyspace1
        }
    }

    /// Traces `object` in `traced` (0: the young space, 1: the from-space, 2: the
    /// to-space); copies go to the to-space.
    pub fn trace_in_space<C: CopyContext>(
        &mut self,
        traced: u8,
        trace: &mut ProcessEdgesBase,
        objects: &mut ObjectTable,
        object: ObjectReference,
        copy_context: &mut C,
    ) -> (r: ObjectReference)
        requires
            traced <= 2,
            old(self).wf(),
            old(objects).wf(),
            old(objects)@.contains_key(object.0),
            old(copy_context).allocator_view().wf(),
        ensures
            ({
                let space = if traced == 0 {
                    old(self).youngspace
                } else if traced == 1 {
                    old(self).fromspace_spec()
                } else {
                    old(self).tospace_spec()
                };
                let m = old(objects)@;
                let info = m[object.0];
                let copying = space.from_space && info.forwarding is NotForwarded;
                let (a2, s2, addr) = bump_alloc_spec(
                    old(copy_context).allocator_view(),
                    old(self).tospace_spec().common,
                    info.size as int,
                    info.align as int,
                    0,
                );
                &&& r.0 == copy_trace_result(space.from_space, m, object.0, addr)
                &&& final(objects)@ == copy_trace_objects(space.from_space, m, object.0, addr)
                &&& final(copy_context).allocator_view() == if copying { a2 } else { old(copy_context).allocator_view() }
                &&& *final(self) == if copying { with_tospace_common(*old(self), s2) } else { *old(self) }
                &&& final(trace).nodes@ == if copying && addr != 0 {
                    old(trace).nodes@.push(r)
                } else {
                    old(trace).nodes@
                }
                &&& final(trace).edges@ == old(trace).edges@
            }),
            final(copy_context).allocator_view().wf(),
            final(objects).wf(),
    {
        if traced == 0 {
            if self.hi {
                self.youngspace.trace_object(trace, objects, object, ALLOC_TripleSpace, copy_context, &mut self.copyspace1.common)
            } else {
                self.youngspace.trace_object(trace, objects, object, ALLOC_TripleSpace, copy_context, &mut self.copyspace0.common)
            }
        } else if traced == 1 {
            if self.hi {
                self.copyspace0.trace_object(trace, objects, object, ALLOC_TripleSpace, copy_context, &mut self.copyspace1.common)
            } else {
                self.copyspace1.trace_object(trace, objects, object, ALLOC_TripleSpace, copy_context, &mut self.copyspace0.common)
            }
        } else {
            // the to-space is never a from-space, so nothing is copied into the
            // space that is passed here
            if self.hi {
                self.copyspace1.trace_object(trace, objects, object, ALLOC_TripleSpace, copy_context, &mut self.youngspace.common)
            } else {
                self.copyspace0.trace_object(trace, objects, object, ALLOC_TripleSpace, copy_context, &mut self.youngspace.common)
            }
        }
    }
}

} // verus!
