use vstd::prelude::*;
use crate::plan::global::{
    common_gc_init_spec, initialized_space,
    common_pages_spec, heap_after, nth_space, semispace_wf, set_collection_kind_spec, BasePlan,
    CommonPlan, GcStatus,
};
use crate::plan::{AllocationSemantics, CopyContext};
use crate::policy::copyspace::CopySpace;
use crate::policy::immortalspace::ImmortalSpace;
use crate::policy::space::{lemma_reserved_pages_bound, SpaceCommon};
use crate::scheduler::gc_works::{EdgeProcessor, ProcessEdgesBase, Scheduler, Work};
use crate::util::address::{ObjectReference, OpaquePointer};
use crate::util::heap::heap_meta::HeapMeta;
use crate::util::heap::layout::{heap_end, heap_start};
use crate::util::heap::vmrequest::VMRequest;
use crate::util::object_model::ObjectTable;

verus! {

/// The allocation semantics of the copies that a collection makes.
pub const ALLOC_MyGC: AllocationSemantics = AllocationSemantics::Default;

/// A semispace plan: two copy spaces, one of which is the to-space that objects are
/// allocated and copied into, while the other, the from-space, is evacuated by a
/// collection. `hi` tells which is which, and each collection flips it.
pub struct MyGC {
    pub hi: bool,
    pub copyspace0: CopySpace,
    pub copyspace1: CopySpace,
    pub common: CommonPlan,
}

/// The common plan after its spaces were prepared.
pub open spec fn common_prepare_spec(c: CommonPlan) -> CommonPlan {
    CommonPlan {
        immortal: ImmortalSpace { mark_state: (1 - c.immortal.mark_state) as u8, ..c.immortal },
        los: ImmortalSpace { mark_state: (1 - c.los.mark_state) as u8, ..c.los },
        ..c
    }
}

/// The plan after `prepare`: the roles of the copy spaces swap, the new from-space
/// is marked as such, and the common spaces flip their mark state.
pub open spec fn mygc_prepare_spec(p: MyGC) -> MyGC {
    let hi = !p.hi;
    MyGC {
        hi,
        copyspace0: CopySpace { from_space: hi, ..p.copyspace0 },
        copyspace1: CopySpace { from_space: !hi, ..p.copyspace1 },
        common: common_prepare_spec(p.common),
    }
}

/// `c` with every page given back and no longer a from-space.
pub open spec fn copyspace_release_spec(c: CopySpace) -> CopySpace {
    CopySpace {
        common: SpaceCommon { cursor: c.common.start, reserved_pages: 0, ..c.common },
        from_space: false,
    }
}

/// The plan after `release`: the from-space gives back all its pages.
pub open spec fn mygc_release_spec(p: MyGC) -> MyGC {
    if p.hi {
        MyGC { copyspace0: copyspace_release_spec(p.copyspace0), ..p }
    } else {
        MyGC { copyspace1: copyspace_release_spec(p.copyspace1), ..p }
    }
}

/// `p` with the to-space's common state replaced by `s`.
pub open spec fn with_tospace_common(p: MyGC, s: SpaceCommon) -> MyGC {
    if p.hi {
        MyGC { copyspace1: CopySpace { common: s, ..p.copyspace1 }, ..p }
    } else {
        MyGC { copyspace0: CopySpace { common: s, ..p.copyspace0 }, ..p }
    }
}

impl MyGC {
    pub open spec fn tospace_spec(&self) -> CopySpace {
        if self.hi {
            self.copyspace1
        } else {
            self.copyspace0
        }
    }

    pub open spec fn fromspace_spec(&self) -> CopySpace {
        if self.hi {
            self.copyspace0
        } else {
            self.copyspace1
        }
    }

    /// The spaces are well formed and own disjoint address ranges, and the to-space
    /// is never a from-space.
    pub open spec fn wf(&self) -> bool {
        semispace_wf(self.hi, self.copyspace0, self.copyspace1, self.common)
    }

    /// Makes the plan: copy space 0 is the to-space and copy space 1 the from-space;
    /// the common spaces follow them.
    pub fn new() -> (r: Self)
        ensures
            r.wf(),
            !r.hi,
            r.copyspace0 == (CopySpace { common: nth_space("copyspace0", 0), from_space: false }),
            r.copyspace1 == (CopySpace { common: nth_space("copyspace1", 1), from_space: true }),
            r.common.immortal == (ImmortalSpace { common: nth_space("immortal", 2), mark_state: 0 }),
            r.common.los == (ImmortalSpace { common: nth_space("los", 3), mark_state: 0 }),
            r.common.base == BasePlan::new_spec(heap_after(4)),
    {
        let mut heap = HeapMeta::new(heap_start(), heap_end());
        assert(heap == heap_after(0));
        let copyspace0 = CopySpace::new("copyspace0", false, true, VMRequest::discontiguous(), &mut heap);
        assert(heap == heap_after(1));
        let copyspace1 = CopySpace::new("copyspace1", true, true, VMRequest::discontiguous(), &mut heap);
        assert(heap == heap_after(2));
        assert(heap_after(3) == SpaceCommon::new_heap_spec(VMRequest::discontiguous_spec(), heap_after(2)));
        assert(heap_after(4) == SpaceCommon::new_heap_spec(VMRequest::discontiguous_spec(), heap_after(3)));
        let common = CommonPlan::new(heap);
        MyGC { hi: false, copyspace0, copyspace1, common }
    }

    /// Sizes the heap and initialises the spaces.
    pub fn gc_init(&mut self, heap_size: usize)
        requires
            old(self).wf(),
        ensures
            final(self).wf(),
            *final(self) == (MyGC {
                copyspace0: CopySpace { common: initialized_space(old(self).copyspace0.common), ..old(self).copyspace0 },
                copyspace1: CopySpace { common: initialized_space(old(self).copyspace1.common), ..old(self).copyspace1 },
                common: common_gc_init_spec(old(self).common, heap_size),
                ..*old(self)
            }),
    {
        self.common.gc_init(heap_size);
        self.copyspace0.init();
        self.copyspace1.init();
    }

    /// Sets the kind of the collection, moves to its prepare phase, and schedules
    /// its work: stop the mutators, prepare, release, and end the collection.
    pub fn schedule_collection(&mut self, scheduler: &mut Scheduler)
        ensures
            *final(self) == (MyGC {
                common: CommonPlan {
                    base: BasePlan {
                        gc_status: GcStatus::GcPrepare,
                        ..set_collection_kind_spec(old(self).common.base)
                    },
                    ..old(self).common
                },
                ..*old(self)
            }),
            final(scheduler).unconstrained_works@ == old(scheduler).unconstrained_works@.push(
                Work::StopMutators(EdgeProcessor::MyGC),
            ),
            final(scheduler).prepare_stage@ == old(scheduler).prepare_stage@.push(Work::Prepare),
            final(scheduler).release_stage@ == old(scheduler).release_stage@.push(Work::Release),
            final(scheduler).final_stage@ == old(scheduler).final_stage@,
            final(scheduler).finalizer == Some(Work::EndOfGC),
    {
        self.common.base.set_collection_kind();
        self.common.base.set_gc_status(GcStatus::GcPrepare);
        scheduler.unconstrained_works.push(Work::StopMutators(EdgeProcessor::MyGC));
        scheduler.prepare_stage.push(Work::Prepare);
        scheduler.release_stage.push(Work::Release);
        scheduler.set_finalizer(Some(Work::EndOfGC));
    }

    /// Prepares a collection: flips which copy space is the to-space, and tells
    /// each copy space whether it is the from-space.
    pub fn prepare(&mut self, tls: OpaquePointer)
        requires
            old(self).wf(),
        ensures
            final(self).wf(),
            *final(self) == mygc_prepare_spec(*old(self)),
    {
        self.common.prepare(tls, true);
        self.hi = !self.hi;
        let hi = self.hi;
        self.copyspace0.prepare(hi);
        self.copyspace1.prepare(!hi);
    }

    /// Ends a collection: every page of the from-space is given back.
    pub fn release(&mut self, tls: OpaquePointer)
        requires
            old(self).wf(),
        ensures
            final(self).wf(),
            *final(self) == mygc_release_spec(*old(self)),
    {
        self.common.release(tls, true);
        if self.hi {
            self.copyspace0.release();
        } else {
            self.copyspace1.release();
        }
    }

    /// The pages that a collection may need for its copies: those of the to-space.
    pub fn get_collection_reserve(&self) -> (r: usize)
        ensures
            r == self.tospace_spec().common.reserved_pages,
    {
        self.tospace().reserved_pages()
    }

    /// The pages in use: those of the to-space and of the common spaces.
    pub fn get_pages_used(&self) -> (r: usize)
        requires
            self.wf(),
        ensures
            r == self.tospace_spec().common.reserved_pages + common_pages_spec(self.common),
            r == (if self.hi {
                self.copyspace1.common.reserved_pages
            } else {
                self.copyspace0.common.reserved_pages
            }) + self.common.immortal.common.reserved_pages + self.common.los.common.reserved_pages,
    {
        proof {
            lemma_reserved_pages_bound(self.copyspace0.common);
            lemma_reserved_pages_bound(self.copyspace1.common);
            lemma_reserved_pages_bound(self.common.immortal.common);
            lemma_reserved_pages_bound(self.common.los.common);
        }
        self.tospace().reserved_pages() + self.common.get_pages_used()
    }

    pub fn base(&self) -> (r: &BasePlan)
        ensures
            *r == self.common.base,
    {
        &self.common.base
    }

    pub fn common(&self) -> (r: &CommonPlan)
        ensures
            *r == self.common,
    {
        &self.common
    }

    /// Copy space 1 when `hi` holds, copy space 0 otherwise.
    pub fn tospace(&self) -> (r: &CopySpace)
        ensures
            *r == self.tospace_spec(),
    {
        if self.hi {
            &self.copyspace1
        } else {
            &self.copyspace0
        }
    }

    /// The copy space that is not the to-space.
    pub fn fromspace(&self) -> (r: &CopySpace)
        ensures
            *r == self.fromspace_spec(),
    {
        if self.hi {
            &self.copyspace0
        } else {
            &self.copyspace1
        }
    }

    /// Traces `object` in copy space 1 when `one` holds, in copy space 0 otherwise;
    /// copies go to the other copy space.
    pub fn trace_in_copyspace<C: CopyContext>(
        &mut self,
        one: bool,
        trace: &mut ProcessEdgesBase,
        objects: &mut ObjectTable,
        object: ObjectReference,
        copy_context: &mut C,
    ) -> (r: ObjectReference)
        requires
            old(objects).wf(),
            old(objects)@.contains_key(object.0),
            old(copy_context).allocator_view().wf(),
            old(self).copyspace0.wf(),
            old(self).copyspace1.wf(),
        ensures
            ({
                let (traced, other) = if one {
                    (old(self).copyspace1, old(self).copyspace0)
                } else {
                    (old(self).copyspace0, old(self).copyspace1)
                };
                let m = old(objects)@;
                let info = m[object.0];
                let copying = traced.from_space && info.forwarding is NotForwarded;
                let (a2, s2, addr) = crate::util::allocator::bump_allocator::bump_alloc_spec(
                    old(copy_context).allocator_view(),
                    other.common,
                    info.size as int,
                    info.align as int,
                    0,
                );
                let other2 = if copying { s2 } else { other.common };
                &&& r.0 == crate::policy::copyspace::copy_trace_result(traced.from_space, m, object.0, addr)
                &&& final(objects)@ == crate::policy::copyspace::copy_trace_objects(traced.from_space, m, object.0, addr)
                &&& final(copy_context).allocator_view() == if copying { a2 } else { old(copy_context).allocator_view() }
                &&& *final(self) == if one {
                    MyGC { copyspace0: CopySpace { common: other2, ..old(self).copyspace0 }, ..*old(self) }
                } else {
                    MyGC { copyspace1: CopySpace { common: other2, ..old(self).copyspace1 }, ..*old(self) }
                }
                &&& final(trace).nodes@ == if copying && addr != 0 {
                    old(trace).nodes@.push(r)
                } else {
                    old(trace).nodes@
                }
                &&& final(trace).edges@ == old(trace).edges@
            }),
            final(copy_context).allocator_view().wf(),
    {
        if one {
            self.copyspace1.trace_object(trace, objects, object, ALLOC_MyGC, copy_context, &mut self.copyspace0.common)
        } else {
            self.copyspace0.trace_object(trace, objects, object, ALLOC_MyGC, copy_context, &mut self.copyspace1.common)
        }
    }
}

/// Preparing a collection swaps the roles of the copy spaces: the new to-space is the
/// old from-space, the new from-space is the old to-space and is marked as the
/// from-space, and the new to-space is not.
pub proof fn lemma_prepare_swaps_spaces(p: MyGC)
    ensures
        mygc_prepare_spec(p).tospace_spec().common == p.fromspace_spec().common,
        mygc_prepare_spec(p).fromspace_spec().common == p.tospace_spec().common,
        mygc_prepare_spec(p).fromspace_spec().from_space,
        !mygc_prepare_spec(p).tospace_spec().from_space,
{
}

/// Two collections bring the to-space back to the same copy space.
pub proof fn lemma_prepare_twice(p: MyGC)
    ensures
        mygc_prepare_spec(mygc_prepare_spec(p)).hi == p.hi,
        mygc_prepare_spec(mygc_prepare_spec(p)).tospace_spec().common == p.tospace_spec().common,
        mygc_prepare_spec(mygc_prepare_spec(p)).fromspace_spec().common == p.fromspace_spec().common,
{
}

/// No address lies in both copy spaces, so an object is traced as a to-space object
/// or as a from-space object, never both.
pub proof fn lemma_copyspaces_exclusive(p: MyGC, addr: int)
    requires
        p.wf(),
    ensures
        !(p.tospace_spec().common.contains(addr) && p.fromspace_spec().common.contains(addr)),
{
}

/// Releasing a collection empties the from-space and leaves the to-space as it was,
/// so afterwards the pages in use are those of the to-space and the common spaces.
pub proof fn lemma_release_empties_fromspace(p: MyGC)
    ensures
        mygc_release_spec(p).fromspace_spec().common.reserved_pages == 0,
        !mygc_release_spec(p).fromspace_spec().from_space,
        mygc_release_spec(p).tospace_spec() == p.tospace_spec(),
        mygc_release_spec(p).common == p.common,
{
}

} // verus!
