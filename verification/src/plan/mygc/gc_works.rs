use vstd::prelude::*;
use crate::plan::mygc::global::{with_tospace_common, MyGC};
use crate::plan::{AllocationSemantics, CopyContext};
use crate::policy::copyspace::{copy_trace_objects, copy_trace_result};
use crate::policy::immortalspace::mark_trace_objects;
use crate::policy::space::SpaceCommon;
use crate::scheduler::gc_works::ProcessEdgesBase;
use crate::util::address::{Address, ObjectReference, OpaquePointer};
use crate::util::allocator::bump_allocator::{bump_alloc_spec, lemma_alloc_in_space, BumpAllocator};
use crate::util::forwarding_word::clear_forwarding_bits;
use crate::util::object_model::{objects_wf, ForwardingState, ObjectInfo, ObjectTable};

verus! {

/// A collector thread's copy allocator for the semispace plan: it bump-allocates
/// the copies in the to-space.
pub struct MyGCCopyContext {
    pub mygc: BumpAllocator,
}

impl MyGCCopyContext {
    /// A context bound to no space and owned by no thread yet.
    pub fn new() -> (r: Self)
        ensures
            r.mygc == (BumpAllocator { tls: OpaquePointer(0), space: None, cursor: 0, limit: 0 }),
    {
        MyGCCopyContext { mygc: BumpAllocator::new(OpaquePointer::uninitialized(), None) }
    }

    pub fn init(&mut self, tls: OpaquePointer)
        ensures
            final(self).mygc == (BumpAllocator { tls, ..old(self).mygc }),
    {
        self.mygc.tls = tls;
    }

    /// Binds the allocator to the to-space of `plan`, dropping its block.
    pub fn prepare(&mut self, plan: &MyGC)
        ensures
            final(self).mygc == (BumpAllocator {
                space: Some(plan.tospace_spec().common.index),
                cursor: 0,
                limit: 0,
                ..old(self).mygc
            }),
    {
        self.mygc.rebind(Some(plan.tospace().common.index));
    }

    pub fn release(&mut self)
        ensures
            *final(self) == *old(self),
    {
    }
}

impl CopyContext for MyGCCopyContext {
    open spec fn allocator_view(&self) -> BumpAllocator {
        self.mygc
    }

    fn alloc_copy(
        &mut self,
        space: &mut SpaceCommon,
        original: ObjectReference,
        bytes: usize,
        align: usize,
        offset: isize,
        semantics: AllocationSemantics,
    ) -> (r: Address) {
        self.mygc.allocate(space, bytes, align, offset)
    }

    fn post_copy(
        &mut self,
        objects: &mut ObjectTable,
        object: ObjectReference,
        tib: Address,
        bytes: usize,
        semantics: AllocationSemantics,
    ) {
        clear_forwarding_bits(objects, object);
    }
}

/// Processes edges for the semispace plan: each traced object is returned where it
/// now lives, and objects reached for the first time are queued for scanning.
pub struct MyGCProcessEdges {
    pub base: ProcessEdgesBase,
}

impl Default for MyGCProcessEdges {
    fn default() -> (r: Self)
        ensures
            r.base.edges@ == Seq::<Address>::empty(),
            r.base.nodes@ == Seq::<ObjectReference>::empty(),
    {
        MyGCProcessEdges { base: ProcessEdgesBase::new(Vec::new()) }
    }
}

/// What tracing `object` does under the semispace plan `p`, when the copy context's
/// allocator is `a` and the objects are `m`: the returned address, the objects, the
/// plan and the allocator afterwards, and whether the result was queued for scanning.
pub open spec fn mygc_trace_spec(
    p: MyGC,
    a: BumpAllocator,
    m: Map<usize, crate::util::object_model::ObjectInfo>,
    object: usize,
) -> (usize, Map<usize, crate::util::object_model::ObjectInfo>, MyGC, BumpAllocator, bool) {
    if object == 0 || p.tospace_spec().common.contains(object as int) {
        (object, m, p, a, false)
    } else if p.fromspace_spec().common.contains(object as int) {
        let fs = p.fromspace_spec();
        let info = m[object];
        let copying = fs.from_space && info.forwarding is NotForwarded;
        let (a2, s2, addr) = bump_alloc_spec(a, p.tospace_spec().common, info.size as int, info.align as int, 0);
        if copying {
            (addr, copy_trace_objects(true, m, object, addr), with_tospace_common(p, s2), a2, addr != 0)
        } else {
            (copy_trace_result(fs.from_space, m, object, addr), m, p, a, false)
        }
    } else {
        let mark_state = if p.common.immortal.common.contains(object as int) {
            p.common.immortal.mark_state
        } else {
            p.common.los.mark_state
        };
        (object, mark_trace_objects(m, object, mark_state), p, a, m[object].mark != mark_state)
    }
}

impl std::ops::Deref for MyGCProcessEdges {
    type Target = ProcessEdgesBase;

    fn deref(&self) -> (r: &ProcessEdgesBase)
        ensures
            *r == self.base,
    {
        &self.base
    }
}

impl std::ops::DerefMut for MyGCProcessEdges {
    fn deref_mut(&mut self) -> (r: &mut ProcessEdgesBase)
        ensures
            *r == old(self).base,
            final(self).base == *final(r),
    {
        &mut self.base
    }
}

impl MyGCProcessEdges {
    pub fn new(edges: Vec<Address>, roots: bool) -> (r: Self)
        ensures
            r.base.edges@ == edges@,
            r.base.nodes@ == Seq::<ObjectReference>::empty(),
    {
        MyGCProcessEdges { base: ProcessEdgesBase::new(edges) }
    }

    /// Traces `object`: the null reference and objects of the to-space are returned
    /// as they are; an object of the from-space is copied into the to-space the first
    /// time it is traced, and its copy is returned then and later; an object of the
    /// common spaces is marked. Where no memory can be had for a copy, the null
    /// reference is returned.
    pub fn trace_object(
        &mut self,
        plan: &mut MyGC,
        objects: &mut ObjectTable,
        copy_context: &mut MyGCCopyContext,
        object: ObjectReference,
    ) -> (r: ObjectReference)
        requires
            object.0 != 0 ==> ({
                &&& old(plan).wf()
                &&& old(objects).wf()
                &&& old(objects)@.contains_key(object.0)
                &&& old(plan).tospace_spec().common.contains(object.0 as int)
                    || old(plan).fromspace_spec().common.contains(object.0 as int)
                    || old(plan).common.immortal.common.contains(object.0 as int)
                    || old(plan).common.los.common.contains(object.0 as int)
                &&& old(copy_context).mygc.bound_to(old(plan).tospace_spec().common)
            }),
        ensures
            ({
                let (res, m2, p2, a2, queued) = mygc_trace_spec(
                    *old(plan),
                    old(copy_context).mygc,
                    old(objects)@,
                    object.0,
                );
                &&& r.0 == res
                &&& final(objects)@ == m2
                &&& *final(plan) == p2
                &&& final(copy_context).mygc == a2
                &&& final(self).base.nodes@ == if queued {
                    old(self).base.nodes@.push(r)
                } else {
                    old(self).base.nodes@
                }
                &&& final(self).base.edges@ == old(self).base.edges@
                &&& old(plan).fromspace_spec().common.contains(object.0 as int) && queued
                    ==> final(plan).tospace_spec().common.contains(r.0 as int)
            }),
            old(plan).wf() ==> final(plan).wf(),
            old(objects).wf() ==> final(objects).wf(),
            old(copy_context).mygc.bound_to(old(plan).tospace_spec().common)
                ==> final(copy_context).mygc.bound_to(final(plan).tospace_spec().common),
    {
        if object.is_null() {
            return object;
        }
        if plan.tospace().in_space(object) {
            let one = plan.hi;
            plan.trace_in_copyspace(one, &mut self.base, objects, object, copy_context)
        } else if plan.fromspace().in_space(object) {
            let one = !plan.hi;
            let ghost info = objects@[object.0];
            proof {
                lemma_alloc_in_space(copy_context.mygc, plan.tospace_spec().common, info.size as int, info.align as int, 0);
            }
            plan.trace_in_copyspace(one, &mut self.base, objects, object, copy_context)
        } else {
            plan.common.trace_object(&mut self.base, objects, object)
        }
    }
}

/// Tracing an object of the from-space a second time returns what the first trace
/// returned, and changes nothing: a copy is made at most once.
pub proof fn lemma_trace_twice(p: MyGC, a: BumpAllocator, m: Map<usize, crate::util::object_model::ObjectInfo>, object: usize)
    requires
        p.wf(),
        crate::util::object_model::objects_wf(m),
        m.contains_key(object),
        p.fromspace_spec().common.contains(object as int),
        a.bound_to(p.tospace_spec().common),
        mygc_trace_spec(p, a, m, object).0 != 0,
    ensures
        ({
            let (r1, m1, p1, a1, q1) = mygc_trace_spec(p, a, m, object);
            let (r2, m2, p2, a2, q2) = mygc_trace_spec(p1, a1, m1, object);
            &&& r2 == r1
            &&& m2 == m1
            &&& p2 == p1
            &&& a2 == a1
            &&& !q2
        }),
{
    let info = m[object];
    lemma_alloc_in_space(a, p.tospace_spec().common, info.size as int, info.align as int, 0);
}

/// The copy space that is the to-space of `p`, named by the flag `hi`.
pub open spec fn mygc_to(p: MyGC) -> crate::policy::copyspace::CopySpace {
    if p.hi {
        p.copyspace1
    } else {
        p.copyspace0
    }
}

/// The copy space that is the from-space of `p`, named by the flag `hi`.
pub open spec fn mygc_from(p: MyGC) -> crate::policy::copyspace::CopySpace {
    if p.hi {
        p.copyspace0
    } else {
        p.copyspace1
    }
}

/// Tracing the null reference returns it and changes nothing.
pub proof fn lemma_trace_null(p: MyGC, a: BumpAllocator, m: Map<usize, ObjectInfo>)
    ensures
        ({
            let (r, m2, p2, a2, q) = mygc_trace_spec(p, a, m, 0);
            r == 0 && m2 == m && p2 == p && a2 == a && !q
        }),
{
}

/// Tracing an object of the to-space returns it and changes nothing.
pub proof fn lemma_trace_tospace_object(p: MyGC, a: BumpAllocator, m: Map<usize, ObjectInfo>, object: usize)
    requires
        object != 0,
        mygc_to(p).common.contains(object as int),
    ensures
        ({
            let (r, m2, p2, a2, q) = mygc_trace_spec(p, a, m, object);
            r == object && m2 == m && p2 == p && a2 == a && !q
        }),
{
}

/// Tracing an object of a from-space that is being evacuated, and that was not yet
/// copied, copies it into the to-space when the to-space has room: the result is the
/// copy's address, which lies in the to-space and is not the object's; the copy has
/// the object's size, alignment and mark and is not forwarded; the object is
/// forwarded to the copy; no other object changes; the copy is queued for scanning;
/// and the from-space stays as it was.
pub proof fn lemma_trace_copies_fromspace_object(
    p: MyGC,
    a: BumpAllocator,
    m: Map<usize, ObjectInfo>,
    object: usize,
)
    requires
        p.wf(),
        objects_wf(m),
        m.contains_key(object),
        object != 0,
        mygc_from(p).common.contains(object as int),
        mygc_from(p).from_space,
        m[object].forwarding == ForwardingState::NotForwarded,
        a.bound_to(mygc_to(p).common),
        bump_alloc_spec(a, mygc_to(p).common, m[object].size as int, m[object].align as int, 0).2 != 0,
    ensures
        ({
            let (r, m2, p2, a2, q) = mygc_trace_spec(p, a, m, object);
            &&& r != 0
            &&& r != object
            &&& mygc_to(p2).common.contains(r as int)
            &&& p2.hi == p.hi
            &&& mygc_from(p2) == mygc_from(p)
            &&& p2.common == p.common
            &&& m2.contains_key(r) && m2[r] == m[object]
            &&& m2.contains_key(object)
            &&& m2[object] == (ObjectInfo { forwarding: ForwardingState::Forwarded(r), ..m[object] })
            &&& forall|k: usize| k != object && k != r ==> (#[trigger] m2.contains_key(k) == m.contains_key(k)
                && (m.contains_key(k) ==> m2[k] == m[k]))
            &&& q
            &&& a2.bound_to(mygc_to(p2).common)
        }),
{
    let info = m[object];
    lemma_alloc_in_space(a, mygc_to(p).common, info.size as int, info.align as int, 0);
}

/// Tracing an object of the from-space that was already copied returns the copy
/// and changes nothing.
pub proof fn lemma_trace_forwarded_object(
    p: MyGC,
    a: BumpAllocator,
    m: Map<usize, ObjectInfo>,
    object: usize,
    to: usize,
)
    requires
        p.wf(),
        m.contains_key(object),
        object != 0,
        mygc_from(p).common.contains(object as int),
        mygc_from(p).from_space,
        m[object].forwarding == ForwardingState::Forwarded(to),
    ensures
        ({
            let (r, m2, p2, a2, q) = mygc_trace_spec(p, a, m, object);
            r == to && m2 == m && p2 == p && a2 == a && !q
        }),
{
}

/// Tracing an object of the immortal space returns it, marks it with the immortal
/// space's mark state, and queues it exactly when it was not marked so before;
/// nothing else changes.
pub proof fn lemma_trace_immortal_object(p: MyGC, a: BumpAllocator, m: Map<usize, ObjectInfo>, object: usize)
    requires
        p.wf(),
        object != 0,
        m.contains_key(object),
        p.common.immortal.common.contains(object as int),
    ensures
        ({
            let (r, m2, p2, a2, q) = mygc_trace_spec(p, a, m, object);
            let ms = p.common.immortal.mark_state;
            &&& r == object && p2 == p && a2 == a
            &&& m2 == m.insert(object, ObjectInfo { mark: ms, ..m[object] })
            &&& q == (m[object].mark != ms)
        }),
{
    if m[object].mark == p.common.immortal.mark_state {
        assert(m.insert(object, ObjectInfo { mark: p.common.immortal.mark_state, ..m[object] }) =~= m);
    }
}

/// Tracing an object of the large-object space returns it, marks it with the
/// large-object space's mark state, and queues it exactly when it was not marked so
/// before; nothing else changes.
pub proof fn lemma_trace_los_object(p: MyGC, a: BumpAllocator, m: Map<usize, ObjectInfo>, object: usize)
    requires
        p.wf(),
        object != 0,
        m.contains_key(object),
        p.common.los.common.contains(object as int),
    ensures
        ({
            let (r, m2, p2, a2, q) = mygc_trace_spec(p, a, m, object);
            let ms = p.common.los.mark_state;
            &&& r == object && p2 == p && a2 == a
            &&& m2 == m.insert(object, ObjectInfo { mark: ms, ..m[object] })
            &&& q == (m[object].mark != ms)
        }),
{
    if m[object].mark == p.common.los.mark_state {
        assert(m.insert(object, ObjectInfo { mark: p.common.los.mark_state, ..m[object] }) =~= m);
    }
}

} // verus!
