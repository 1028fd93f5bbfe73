use vstd::prelude::*;
use crate::policy::immortalspace::{mark_trace_objects, ImmortalSpace};
use crate::policy::copyspace::CopySpace;
use crate::policy::space::{disjoint, SpaceCommon};
use crate::scheduler::gc_works::ProcessEdgesBase;
use crate::util::address::{ObjectReference, OpaquePointer};
use crate::util::conversions::{bytes_to_pages, bytes_to_pages_spec};
use crate::util::heap::heap_meta::HeapMeta;
use crate::util::heap::layout::{
    heap_end_spec, heap_layout_64bit_spec, heap_start_spec, max_space_extent_spec,
};
use crate::util::heap::vmrequest::VMRequest;
use crate::util::object_model::ObjectTable;

verus! {

/// Where a plan is in a collection.
#[derive(Clone, Copy, Debug, PartialEq, Eq, Structural)]
pub enum GcStatus {
    NotInGC,
    GcPrepare,
    GcProper,
}

/// The state that every plan keeps: the collection status, the heap that spaces
/// are made from, the heap size in pages, and how the current collection was
/// triggered and how often the last allocation was retried.
pub struct BasePlan {
    pub gc_status: GcStatus,
    pub heap: HeapMeta,
    pub total_pages: usize,
    pub user_triggered_collection: bool,
    pub internal_triggered_collection: bool,
    pub allocation_success: bool,
    pub max_collection_attempts: usize,
    pub cur_collection_attempts: usize,
    pub emergency_collection: bool,
}

/// The number of attempts that the coming collection makes, and the counter of
/// attempts after it: a failed allocation since the last collection adds one
/// attempt (the counter wraps around), a successful one starts again from one.
pub open spec fn collection_attempts_spec(b: BasePlan) -> int {
    if !b.allocation_success {
        if b.max_collection_attempts == usize::MAX {
            0
        } else {
            b.max_collection_attempts + 1
        }
    } else {
        1
    }
}

/// The base plan after the kind of the coming collection was set: a collection
/// that the user asked for makes one attempt and leaves the attempt counter alone;
/// any other makes as many attempts as the counter says, and is an emergency
/// collection when that is more than one and the plan did not trigger it itself.
pub open spec fn set_collection_kind_spec(b: BasePlan) -> BasePlan {
    if b.user_triggered_collection {
        BasePlan { cur_collection_attempts: 1, emergency_collection: false, ..b }
    } else {
        let attempts = collection_attempts_spec(b);
        BasePlan {
            max_collection_attempts: attempts as usize,
            allocation_success: false,
            cur_collection_attempts: attempts as usize,
            emergency_collection: !b.internal_triggered_collection && attempts > 1,
            ..b
        }
    }
}

impl BasePlan {
    pub open spec fn wf(&self) -> bool {
        self.heap.wf()
    }

    /// A base plan that has not been sized and has not collected.
    pub open spec fn new_spec(heap: HeapMeta) -> BasePlan {
        BasePlan {
            gc_status: GcStatus::NotInGC,
            heap,
            total_pages: 0,
            user_triggered_collection: false,
            internal_triggered_collection: false,
            allocation_success: false,
            max_collection_attempts: 0,
            cur_collection_attempts: 0,
            emergency_collection: false,
        }
    }

    pub fn new(heap: HeapMeta) -> (r: Self)
        requires
            heap.wf(),
        ensures
            r.wf(),
            r == BasePlan::new_spec(heap),
    {
        BasePlan {
            gc_status: GcStatus::NotInGC,
            heap,
            total_pages: 0,
            user_triggered_collection: false,
            internal_triggered_collection: false,
            allocation_success: false,
            max_collection_attempts: 0,
            cur_collection_attempts: 0,
            emergency_collection: false,
        }
    }

    /// Sizes the heap to `heap_size` bytes, rounded up to whole pages.
    pub fn gc_init(&mut self, heap_size: usize)
        ensures
            *final(self) == (BasePlan {
                total_pages: bytes_to_pages_spec(heap_size as int) as usize,
                ..*old(self)
            }),
    {
        self.total_pages = bytes_to_pages(heap_size);
    }

    pub fn set_gc_status(&mut self, s: GcStatus)
        ensures
            *final(self) == (BasePlan { gc_status: s, ..*old(self) }),
    {
        self.gc_status = s;
    }

    fn determine_collection_attempts(&mut self) -> (r: usize)
        ensures
            r == collection_attempts_spec(*old(self)),
            *final(self) == (BasePlan {
                max_collection_attempts: r,
                allocation_success: false,
                ..*old(self)
            }),
    {
        if !self.allocation_success {
            self.max_collection_attempts = if self.max_collection_attempts == usize::MAX {
                0
            } else {
                self.max_collection_attempts + 1
            };
        } else {
            self.allocation_success = false;
            self.max_collection_attempts = 1;
        }
        self.max_collection_attempts
    }

    /// Decides how many attempts the coming collection makes and whether it is an
    /// emergency collection: one that a failed allocation forced after an earlier
    /// attempt, when the last collection was exhaustive (it always is here).
    pub fn set_collection_kind(&mut self)
        ensures
            *final(self) == set_collection_kind_spec(*old(self)),
    {
        self.cur_collection_attempts = if self.user_triggered_collection {
            1
        } else {
            self.determine_collection_attempts()
        };
        self.emergency_collection = !self.internal_triggered_collection
            && self.cur_collection_attempts > 1;
    }

    /// The pages of the base plan's own spaces: it has none.
    pub fn get_pages_used(&self) -> (r: usize)
        ensures
            r == 0,
    {
        0
    }
}

/// `s` marked as initialised.
pub open spec fn initialized_space(s: SpaceCommon) -> SpaceCommon {
    SpaceCommon { initialized: true, ..s }
}

/// The spaces that every collecting plan shares: a space of immortal objects and a
/// space of large objects, both non-moving, and the base plan.
pub struct CommonPlan {
    pub immortal: ImmortalSpace,
    pub los: ImmortalSpace,
    pub base: BasePlan,
}

/// Whether the heap has room for `n` more spaces made from discontiguous requests.
pub open spec fn room_for_spaces(heap: HeapMeta, n: int) -> bool {
    &&& heap.wf()
    &&& heap.space_count + n <= usize::MAX
    &&& heap_layout_64bit_spec() ==> n * max_space_extent_spec() <= heap.available()
}

/// The pages that a common plan's spaces hold.
pub open spec fn common_pages_spec(c: CommonPlan) -> int {
    c.immortal.common.reserved_pages + c.los.common.reserved_pages
}

/// The common plan after it was sized to `heap_size` bytes and its spaces were
/// initialised.
pub open spec fn common_gc_init_spec(c: CommonPlan, heap_size: usize) -> CommonPlan {
    CommonPlan {
        immortal: ImmortalSpace { common: initialized_space(c.immortal.common), ..c.immortal },
        los: ImmortalSpace { common: initialized_space(c.los.common), ..c.los },
        base: BasePlan { total_pages: bytes_to_pages_spec(heap_size as int) as usize, ..c.base },
    }
}

impl CommonPlan {
    pub open spec fn wf(&self) -> bool {
        &&& self.immortal.wf()
        &&& self.los.wf()
        &&& self.base.wf()
    }

    pub fn new(heap: HeapMeta) -> (r: Self)
        requires
            room_for_spaces(heap, 2),
        ensures
            r.wf(),
            r.immortal.common == SpaceCommon::new_spec("immortal", true, VMRequest::discontiguous_spec(), heap),
            r.los.common == SpaceCommon::new_spec(
                "los",
                true,
                VMRequest::discontiguous_spec(),
                SpaceCommon::new_heap_spec(VMRequest::discontiguous_spec(), heap),
            ),
            r.immortal.mark_state == 0,
            r.los.mark_state == 0,
            r.base == BasePlan::new_spec(SpaceCommon::new_heap_spec(
                VMRequest::discontiguous_spec(),
                SpaceCommon::new_heap_spec(VMRequest::discontiguous_spec(), heap),
            )),
    {
        let mut heap = heap;
        let immortal = ImmortalSpace::new("immortal", true, VMRequest::discontiguous(), &mut heap);
        let los = ImmortalSpace::new("los", true, VMRequest::discontiguous(), &mut heap);
        CommonPlan { immortal, los, base: BasePlan::new(heap) }
    }

    pub fn gc_init(&mut self, heap_size: usize)
        ensures
            *final(self) == common_gc_init_spec(*old(self), heap_size),
    {
        self.base.gc_init(heap_size);
        self.immortal.init();
        self.los.init();
    }

    /// Flips the mark state of both spaces.
    pub fn prepare(&mut self, tls: OpaquePointer, primary: bool)
        requires
            old(self).wf(),
        ensures
            final(self).wf(),
            final(self).immortal == (ImmortalSpace {
                mark_state: (1 - old(self).immortal.mark_state) as u8,
                ..old(self).immortal
            }),
            final(self).los == (ImmortalSpace {
                mark_state: (1 - old(self).los.mark_state) as u8,
                ..old(self).los
            }),
            final(self).base == old(self).base,
    {
        self.immortal.prepare();
        self.los.prepare();
    }

    pub fn release(&mut self, tls: OpaquePointer, primary: bool)
        ensures
            *final(self) == *old(self),
    {
        self.immortal.release();
        self.los.release();
    }

    pub fn get_pages_used(&self) -> (r: usize)
        requires
            self.wf(),
        ensures
            r == common_pages_spec(*self),
            r == self.immortal.common.reserved_pages + self.los.common.reserved_pages,
    {
        proof {
            crate::policy::space::lemma_reserved_pages_bound(self.immortal.common);
            crate::policy::space::lemma_reserved_pages_bound(self.los.common);
        }
        self.immortal.reserved_pages() + self.los.reserved_pages() + self.base.get_pages_used()
    }

    pub fn get_immortal(&self) -> (r: &ImmortalSpace)
        ensures
            *r == self.immortal,
    {
        &self.immortal
    }

    pub fn get_los(&self) -> (r: &ImmortalSpace)
        ensures
            *r == self.los,
    {
        &self.los
    }

    /// Traces an object of the immortal or the large-object space.
    pub fn trace_object(&self, trace: &mut ProcessEdgesBase, objects: &mut ObjectTable, object: ObjectReference) -> (r: ObjectReference)
        requires
            self.wf(),
            old(objects).wf(),
            old(objects)@.contains_key(object.0),
            self.immortal.common.contains(object.0 as int) || self.los.common.contains(object.0 as int),
        ensures
            r == object,
            final(objects).wf(),
            ({
                let mark_state = if self.immortal.common.contains(object.0 as int) {
                    self.immortal.mark_state
                } else {
                    self.los.mark_state
                };
                &&& final(objects)@ == mark_trace_objects(old(objects)@, object.0, mark_state)
                &&& final(trace).nodes@ == if old(objects)@[object.0].mark != mark_state {
                    old(trace).nodes@.push(object)
                } else {
                    old(trace).nodes@
                }
            }),
            final(trace).edges@ == old(trace).edges@,
    {
        if self.immortal.in_space(object) {
            return self.immortal.trace_object(trace, objects, object);
        }
        self.los.trace_object(trace, objects, object)
    }
}

/// The heap that a plan starts from: the whole heap range, and no space yet.
pub open spec fn initial_heap() -> HeapMeta {
    HeapMeta { heap_cursor: heap_start_spec() as usize, heap_limit: heap_end_spec() as usize, space_count: 0 }
}

/// The heap after `n` spaces were made from discontiguous requests.
pub open spec fn heap_after(n: nat) -> HeapMeta
    decreases n,
{
    if n == 0 {
        initial_heap()
    } else {
        SpaceCommon::new_heap_spec(VMRequest::discontiguous_spec(), heap_after((n - 1) as nat))
    }
}

/// The `n`-th space made from a discontiguous request, counting from 0.
pub open spec fn nth_space(name: &'static str, n: nat) -> SpaceCommon {
    SpaceCommon::new_spec(name, true, VMRequest::discontiguous_spec(), heap_after(n))
}

/// The state of a plan with two copy spaces, one the to-space as `hi` tells, and
/// the common spaces: the spaces are well formed and own disjoint address ranges,
/// the copy spaces have distinct indices, and the to-space is never a from-space.
pub open spec fn semispace_wf(hi: bool, c0: CopySpace, c1: CopySpace, common: CommonPlan) -> bool {
    &&& c0.wf()
    &&& c1.wf()
    &&& common.wf()
    &&& !(if hi { c1 } else { c0 }).from_space
    &&& c0.common.index != c1.common.index
    &&& disjoint(c0.common, c1.common)
    &&& disjoint(c0.common, common.immortal.common)
    &&& disjoint(c0.common, common.los.common)
    &&& disjoint(c1.common, common.immortal.common)
    &&& disjoint(c1.common, common.los.common)
    &&& disjoint(common.immortal.common, common.los.common)
}

/// A collection that the user asked for makes a single attempt and is never an
/// emergency collection.
pub proof fn lemma_user_collection_single_attempt(b: BasePlan)
    requires
        b.user_triggered_collection,
    ensures
        set_collection_kind_spec(b).cur_collection_attempts == 1,
        !set_collection_kind_spec(b).emergency_collection,
{
}

/// The spaces that the plans make own an address range, and so can provide memory,
/// exactly under the 64-bit heap layout; under the 32-bit layout their requests are
/// discontiguous, and a discontiguous space owns no range here.
pub proof fn lemma_plan_spaces_contiguous_iff_64bit(name: &'static str, n: nat)
    ensures
        nth_space(name, n).contiguous <==> heap_layout_64bit_spec(),
{
}

/// How the kind of a collection is set: a collection that the plan triggered itself
/// is never an emergency collection; one that the user asked for makes one attempt,
/// is no emergency, and leaves the attempt counter and the allocation flag alone;
/// otherwise a successful allocation since the last collection starts the counter
/// again from one attempt, and a failed one adds an attempt, making the collection
/// an emergency when it was not triggered internally and it is not the first
/// attempt.
pub proof fn lemma_collection_kind(b: BasePlan)
    ensures
        ({
            let b2 = set_collection_kind_spec(b);
            &&& b.internal_triggered_collection ==> !b2.emergency_collection
            &&& b.user_triggered_collection ==> {
                &&& b2.cur_collection_attempts == 1
                &&& !b2.emergency_collection
                &&& b2.max_collection_attempts == b.max_collection_attempts
                &&& b2.allocation_success == b.allocation_success
            }
            &&& !b.user_triggered_collection && b.allocation_success ==> {
                &&& b2.cur_collection_attempts == 1
                &&& b2.max_collection_attempts == 1
                &&& !b2.allocation_success
                &&& !b2.emergency_collection
            }
            &&& !b.user_triggered_collection && !b.allocation_success && b.max_collection_attempts
                < usize::MAX ==> {
                &&& b2.cur_collection_attempts == b.max_collection_attempts + 1
                &&& b2.max_collection_attempts == b.max_collection_attempts + 1
                &&& b2.emergency_collection == (!b.internal_triggered_collection
                    && b.max_collection_attempts >= 1)
            }
            &&& b2.gc_status == b.gc_status
            &&& b2.heap == b.heap
            &&& b2.total_pages == b.total_pages
        }),
{
}

/// The pages that a common plan uses are those that its immortal space and its
/// large-object space have acquired; acquiring pages in either space adds them.
pub proof fn lemma_common_pages(c: CommonPlan, pages: int)
    requires
        c.wf(),
        pages >= 0,
    ensures
        common_pages_spec(c) == c.immortal.common.reserved_pages + c.los.common.reserved_pages,
        ({
            let (l2, r) = crate::policy::space::acquire_spec(c.los.common, pages);
            r != 0 ==> common_pages_spec(CommonPlan { los: ImmortalSpace { common: l2, ..c.los }, ..c })
                == common_pages_spec(c) + pages
        }),
        ({
            let (i2, r) = crate::policy::space::acquire_spec(c.immortal.common, pages);
            r != 0 ==> common_pages_spec(CommonPlan { immortal: ImmortalSpace { common: i2, ..c.immortal }, ..c })
                == common_pages_spec(c) + pages
        }),
{
}

} // verus!
