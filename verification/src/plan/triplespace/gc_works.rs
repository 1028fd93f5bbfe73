use vstd::prelude::*;
use crate::plan::triplespace::global::{lemma_with_tospace_common_wf, with_tospace_common, TripleSpace};
use crate::plan::{AllocationSemantics, CopyContext};
use crate::policy::copyspace::{copy_trace_objects, copy_trace_result};
use crate::policy::immortalspace::mark_trace_objects;
use crate::policy::space::SpaceCommon;
use crate::scheduler::gc_works::ProcessEdgesBase;
use crate::util::address::{Address, ObjectReference, OpaquePointer};
use crate::util::allocator::bump_allocator::{bump_alloc_spec, lemma_alloc_in_space, BumpAllocator};
use crate::util::forwarding_word::clear_forwarding_bits;
use crate::util::object_model::{objects_wf, ForwardingState, ObjectInfo, ObjectTable};

verus! {

/// A collector thread's copy allocator for the three-space plan: it bump-allocates
/// the copies in the to-space.
pub struct TripleSpaceCopyContext {
    pub triplespace: BumpAllocator,
}

impl TripleSpaceCopyContext {
    /// A context bound to no space and owned by no thread yet.
    pub fn new() -> (r: Self)
        ensures
            r.triplespace == (BumpAllocator { tls: OpaquePointer(0), space: None, cursor: 0, limit: 0 }),
    {
        TripleSpaceCopyContext { triplespace: BumpAllocator::new(OpaquePointer::uninitialized(), None) }
    }

    pub fn init(&mut self, tls: OpaquePointer)
        ensures
            final(self).triplespace == (BumpAllocator { tls, ..old(self).triplespace }),
    {
        self.triplespace.tls = tls;
    }

    /// Binds the allocator to the to-space of `plan`, so that live objects are
    /// copied there, dropping its block.
    pub fn prepare(&mut self, plan: &TripleSpace)
        ensures
            final(self).triplespace == (BumpAllocator {
                space: Some(plan.tospace_spec().common.index),
                cursor: 0,
                limit: 0,
                ..old(self).triplespace
            }),
    {
        self.triplespace.rebind(Some(plan.tospace().common.index));
    }

    pub fn release(&mut self)
        ensures
            *final(self) == *old(self),
    {
    }
}

impl CopyContext for TripleSpaceCopyContext {
    open spec fn allocator_view(&self) -> BumpAllocator {
        self.triplespace
    }

    fn alloc_copy(
        &mut self,
        space: &mut SpaceCommon,
        original: ObjectReference,
        bytes: usize,
        align: usize,
        offset: isize,
        semantics: AllocationSemantics,
    ) -> (r: Address) {
        self.triplespace.allocate(space, bytes, align, offset)
    }

    fn post_copy(
        &mut self,
        objects: &mut ObjectTable,
        object: ObjectReference,
        tib: Address,
        bytes: usize,
        semantics: AllocationSemantics,
    ) {
        clear_forwarding_bits(objects, object);
    }
}

/// Processes edges for the three-space plan.
pub struct TripleSpaceProcessEdges {
    pub base: ProcessEdgesBase,
}

impl Default for TripleSpaceProcessEdges {
    fn default() -> (r: Self)
        ensures
            r.base.edges@ == Seq::<Address>::empty(),
            r.base.nodes@ == Seq::<ObjectReference>::empty(),
    {
        TripleSpaceProcessEdges { base: ProcessEdgesBase::new(Vec::new()) }
    }
}

/// What tracing `object` in one of the copying spaces `space_from` of `p` does: the
/// returned address, the objects, the plan, the allocator, and whether the result
/// was queued for scanning.
pub open spec fn copying_trace_spec(
    p: TripleSpace,
    space_from: bool,
    a: BumpAllocator,
    m: Map<usize, ObjectInfo>,
    object: usize,
) -> (usize, Map<usize, ObjectInfo>, TripleSpace, BumpAllocator, bool) {
    let info = m[object];
    let copying = space_from && info.forwarding is NotForwarded;
    let (a2, s2, addr) = bump_alloc_spec(a, p.tospace_spec().common, info.size as int, info.align as int, 0);
    if copying {
        (addr, copy_trace_objects(true, m, object, addr), with_tospace_common(p, s2), a2, addr != 0)
    } else {
        (copy_trace_result(space_from, m, object, addr), m, p, a, false)
    }
}

/// What tracing `object` does under the three-space plan `p`: the young space is
/// tried first, then the to-space, the from-space and the common spaces.
pub open spec fn triplespace_trace_spec(
    p: TripleSpace,
    a: BumpAllocator,
    m: Map<usize, ObjectInfo>,
    object: usize,
) -> (usize, Map<usize, ObjectInfo>, TripleSpace, BumpAllocator, bool) {
    if object == 0 {
        (object, m, p, a, false)
    } else if p.youngspace.common.contains(object as int) {
        copying_trace_spec(p, p.youngspace.from_space, a, m, object)
    } else if p.tospace_spec().common.contains(object as int) {
        (object, m, p, a, false)
    } else if p.fromspace_spec().common.contains(object as int) {
        copying_trace_spec(p, p.fromspace_spec().from_space, a, m, object)
    } else {
        let mark_state = if p.common.immortal.common.contains(object as int) {
            p.common.immortal.mark_state
        } else {
            p.common.los.mark_state
        };
        (object, mark_trace_objects(m, object, mark_state), p, a, m[object].mark != mark_state)
    }
}

impl std::ops::Deref for TripleSpaceProcessEdges {
    type Target = ProcessEdgesBase;

    fn deref(&self) -> (r: &ProcessEdgesBase)
        ensures
            *r == self.base,
    {
        &self.base
    }
}

impl std::ops::DerefMut for TripleSpaceProcessEdges {
    fn deref_mut(&mut self) -> (r: &mut ProcessEdgesBase)
        ensures
            *r == old(self).base,
            final(self).base == *final(r),
    {
        &mut self.base
    }
}

impl TripleSpaceProcessEdges {
    pub fn new(edges: Vec<Address>, roots: bool) -> (r: Self)
        ensures
            r.base.edges@ == edges@,
            r.base.nodes@ == Seq::<ObjectReference>::empty(),
    {
        TripleSpaceProcessEdges { base: ProcessEdgesBase::new(edges) }
    }

    /// Traces `object`: the null reference and objects of the to-space are returned
    /// as they are; an object of the young space or of the from-space is copied into
    /// the to-space the first time it is traced while that space is being evacuated,
    /// and its copy is returned then and later; an object of the common spaces is
    /// marked. Where no memory can be had for a copy, the null reference is returned.
    pub fn trace_object(
        &mut self,
        plan: &mut TripleSpace,
        objects: &mut ObjectTable,
        copy_context: &mut TripleSpaceCopyContext,
        object: ObjectReference,
    ) -> (r: ObjectReference)
        requires
            object.0 != 0 ==> ({
                &&& old(plan).wf()
                &&& old(objects).wf()
                &&& old(objects)@.contains_key(object.0)
                &&& old(plan).youngspace.common.contains(object.0 as int)
                    || old(plan).tospace_spec().common.contains(object.0 as int)
                    || old(plan).fromspace_spec().common.contains(object.0 as int)
                    || old(plan).common.immortal.common.contains(object.0 as int)
                    || old(plan).common.los.common.contains(object.0 as int)
                &&& old(copy_context).triplespace.bound_to(old(plan).tospace_spec().common)
            }),
        ensures
            ({
                let (res, m2, p2, a2, queued) = triplespace_trace_spec(
                    *old(plan),
                    old(copy_context).triplespace,
                    old(objects)@,
                    object.0,
                );
                &&& r.0 == res
                &&& final(objects)@ == m2
                &&& *final(plan) == p2
                &&& final(copy_context).triplespace == a2
                &&& final(self).base.nodes@ == if queued {
                    old(self).base.nodes@.push(r)
                } else {
                    old(self).base.nodes@
                }
                &&& final(self).base.edges@ == old(self).base.edges@
                &&& (old(plan).youngspace.common.contains(object.0 as int)
                    || old(plan).fromspace_spec().common.contains(object.0 as int)) && queued
                    ==> final(plan).tospace_spec().common.contains(r.0 as int)
            }),
            old(plan).wf() ==> final(plan).wf(),
            old(objects).wf() ==> final(objects).wf(),
            old(copy_context).triplespace.bound_to(old(plan).tospace_spec().common)
                ==> final(copy_context).triplespace.bound_to(final(plan).tospace_spec().common),
    {
        if object.is_null() {
            return object;
        }
        let ghost info = objects@[object.0];
        let ghost p0 = *plan;
        let ghost a0 = copy_context.triplespace;
        proof {
            lemma_alloc_in_space(a0, p0.tospace_spec().common, info.size as int, info.align as int, 0);
            let (a2, s2, addr) = bump_alloc_spec(a0, p0.tospace_spec().common, info.size as int, info.align as int, 0);
            lemma_with_tospace_common_wf(p0, s2);
        }
        if plan.youngspace().in_space(object) {
            plan.trace_in_space(0, &mut self.base, objects, object, copy_context)
        } else if plan.tospace().in_space(object) {
            plan.trace_in_space(2, &mut self.base, objects, object, copy_context)
        } else if plan.fromspace().in_space(object) {
            plan.trace_in_space(1, &mut self.base, objects, object, copy_context)
        } else {
            plan.common.trace_object(&mut self.base, objects, object)
        }
    }
}

/// Tracing an object of the young space or the from-space a second time returns
/// what the first trace returned, and changes nothing: a copy is made at most once.
pub proof fn lemma_trace_twice(p: TripleSpace, a: BumpAllocator, m: Map<usize, ObjectInfo>, object: usize)
    requires
        p.wf(),
        crate::util::object_model::objects_wf(m),
        m.contains_key(object),
        p.youngspace.common.contains(object as int) || p.fromspace_spec().common.contains(object as int),
        a.bound_to(p.tospace_spec().common),
        triplespace_trace_spec(p, a, m, object).0 != 0,
    ensures
        ({
            let (r1, m1, p1, a1, q1) = triplespace_trace_spec(p, a, m, object);
            let (r2, m2, p2, a2, q2) = triplespace_trace_spec(p1, a1, m1, object);
            &&& r2 == r1
            &&& m2 == m1
            &&& p2 == p1
            &&& a2 == a1
            &&& !q2
        }),
{
    let info = m[object];
    lemma_alloc_in_space(a, p.tospace_spec().common, info.size as int, info.align as int, 0);
    let (a2, s2, addr) = bump_alloc_spec(a, p.tospace_spec().common, info.size as int, info.align as int, 0);
    lemma_with_tospace_common_wf(p, s2);
}

/// The copy space that is the to-space of `p`, named by the flag `hi`.
pub open spec fn triple_to(p: TripleSpace) -> crate::policy::copyspace::CopySpace {
    if p.hi {
        p.copyspace1
    } else {
        p.copyspace0
    }
}

/// The copy space that is the from-space of `p`, named by the flag `hi`.
pub open spec fn triple_from(p: TripleSpace) -> crate::policy::copyspace::CopySpace {
    if p.hi {
        p.copyspace0
    } else {
        p.copyspace1
    }
}

/// Tracing the null reference returns it and changes nothing.
pub proof fn lemma_trace_null(p: TripleSpace, a: BumpAllocator, m: Map<usize, ObjectInfo>)
    ensures
        ({
            let (r, m2, p2, a2, q) = triplespace_trace_spec(p, a, m, 0);
            r == 0 && m2 == m && p2 == p && a2 == a && !q
        }),
{
}

/// Tracing an object of the to-space returns it and changes nothing.
pub proof fn lemma_trace_tospace_object(p: TripleSpace, a: BumpAllocator, m: Map<usize, ObjectInfo>, object: usize)
    requires
        p.wf(),
        object != 0,
        triple_to(p).common.contains(object as int),
    ensures
        ({
            let (r, m2, p2, a2, q) = triplespace_trace_spec(p, a, m, object);
            r == object && m2 == m && p2 == p && a2 == a && !q
        }),
{
}

/// Tracing an object of `space`, the young space or the from-space, while that
/// space is being evacuated and before the object was copied, copies it into the
/// to-space when the to-space has room: the result is the copy's address, in the
/// to-space and not the object's; the copy has the object's size, alignment and
/// mark; the object is forwarded to the copy; no other object changes; the copy is
/// queued; and the young space and the from-space stay as they were.
pub proof fn lemma_trace_copies_evacuated_object(
    p: TripleSpace,
    a: BumpAllocator,
    m: Map<usize, ObjectInfo>,
    object: usize,
    young: bool,
)
    requires
        p.wf(),
        objects_wf(m),
        m.contains_key(object),
        object != 0,
        young ==> p.youngspace.common.contains(object as int) && p.youngspace.from_space,
        !young ==> triple_from(p).common.contains(object as int) && triple_from(p).from_space,
        m[object].forwarding == ForwardingState::NotForwarded,
        a.bound_to(triple_to(p).common),
        bump_alloc_spec(a, triple_to(p).common, m[object].size as int, m[object].align as int, 0).2 != 0,
    ensures
        ({
            let (r, m2, p2, a2, q) = triplespace_trace_spec(p, a, m, object);
            &&& r != 0
            &&& r != object
            &&& triple_to(p2).common.contains(r as int)
            &&& p2.hi == p.hi
            &&& triple_from(p2) == triple_from(p)
            &&& p2.youngspace == p.youngspace
            &&& p2.common == p.common
            &&& m2.contains_key(r) && m2[r] == m[object]
            &&& m2.contains_key(object)
            &&& m2[object] == (ObjectInfo { forwarding: ForwardingState::Forwarded(r), ..m[object] })
            &&& forall|k: usize| k != object && k != r ==> (#[trigger] m2.contains_key(k) == m.contains_key(k)
                && (m.contains_key(k) ==> m2[k] == m[k]))
            &&& q
            &&& a2.bound_to(triple_to(p2).common)
        }),
{
    let info = m[object];
    lemma_alloc_in_space(a, triple_to(p).common, info.size as int, info.align as int, 0);
    let (a2, s2, addr) = bump_alloc_spec(a, triple_to(p).common, info.size as int, info.align as int, 0);
    lemma_with_tospace_common_wf(p, s2);
}

/// Tracing an object of the young space or the from-space that was already copied
/// returns the copy and changes nothing.
pub proof fn lemma_trace_forwarded_object(
    p: TripleSpace,
    a: BumpAllocator,
    m: Map<usize, ObjectInfo>,
    object: usize,
    to: usize,
)
    requires
        p.wf(),
        m.contains_key(object),
        object != 0,
        (p.youngspace.common.contains(object as int) && p.youngspace.from_space) || (
        triple_from(p).common.contains(object as int) && triple_from(p).from_space),
        m[object].forwarding == ForwardingState::Forwarded(to),
    ensures
        ({
            let (r, m2, p2, a2, q) = triplespace_trace_spec(p, a, m, object);
            r == to && m2 == m && p2 == p && a2 == a && !q
        }),
{
}

/// Tracing an object of the immortal space returns it, marks it with the immortal
/// space's mark state, and queues it exactly when it was not marked so before;
/// nothing else changes.
pub proof fn lemma_trace_immortal_object(p: TripleSpace, a: BumpAllocator, m: Map<usize, ObjectInfo>, object: usize)
    requires
        p.wf(),
        object != 0,
        m.contains_key(object),
        p.common.immortal.common.contains(object as int),
    ensures
        ({
            let (r, m2, p2, a2, q) = triplespace_trace_spec(p, a, m, object);
            let ms = p.common.immortal.mark_state;
            &&& r == object && p2 == p && a2 == a
            &&& m2 == m.insert(object, ObjectInfo { mark: ms, ..m[object] })
            &&& q == (m[object].mark != ms)
        }),
{
    if m[object].mark == p.common.immortal.mark_state {
        assert(m.insert(object, ObjectInfo { mark: p.common.immortal.mark_state, ..m[object] }) =~= m);
    }
}

/// Tracing an object of the large-object space returns it, marks it with the
/// large-object space's mark state, and queues it exactly when it was not marked so
/// before; nothing else changes.
pub proof fn lemma_trace_los_object(p: TripleSpace, a: BumpAllocator, m: Map<usize, ObjectInfo>, object: usize)
    requires
        p.wf(),
        object != 0,
        m.contains_key(object),
        p.common.los.common.contains(object as int),
    ensures
        ({
            let (r, m2, p2, a2, q) = triplespace_trace_spec(p, a, m, object);
            let ms = p.common.los.mark_state;
            &&& r == object && p2 == p && a2 == a
            &&& m2 == m.insert(object, ObjectInfo { mark: ms, ..m[object] })
            &&& q == (m[object].mark != ms)
        }),
{
    if m[object].mark == p.common.los.mark_state {
        assert(m.insert(object, ObjectInfo { mark: p.common.los.mark_state, ..m[object] }) =~= m);
    }
}

} // verus!
