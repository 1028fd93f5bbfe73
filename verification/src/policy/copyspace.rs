use vstd::prelude::*;
use crate::plan::{AllocationSemantics, CopyContext};
use crate::policy::space::{request_fits, SpaceCommon};
use crate::scheduler::gc_works::ProcessEdgesBase;
use crate::util::address::ObjectReference;
use crate::util::allocator::bump_allocator::bump_alloc_spec;
use crate::util::forwarding_word::{
    attempt_to_forward, forward_object, spin_and_get_forwarded_object,
    state_is_forwarded_or_being_forwarded,
};
use crate::util::heap::heap_meta::HeapMeta;
use crate::util::heap::vmrequest::VMRequest;
use crate::util::object_model::{
    object_wf, with_forwarding, ForwardingState, ObjectTable,
};

verus! {

/// A space whose live objects are copied out when it is the from-space of a
/// collection.
pub struct CopySpace {
    pub common: SpaceCommon,
    pub from_space: bool,
}

/// What tracing `object` in a space whose from-space flag is `from_space` does to the
/// objects, when copying it would allocate at `addr` (0: no memory could be had).
pub open spec fn copy_trace_objects(
    from_space: bool,
    m: Map<usize, crate::util::object_model::ObjectInfo>,
    object: usize,
    addr: usize,
) -> Map<usize, crate::util::object_model::ObjectInfo> {
    if from_space && m[object].forwarding is NotForwarded && addr != 0 {
        m.insert(addr, m[object]).insert(
            object,
            with_forwarding(m[object], ForwardingState::Forwarded(addr)),
        )
    } else {
        m
    }
}

/// The reference that tracing `object` in such a space returns.
pub open spec fn copy_trace_result(
    from_space: bool,
    m: Map<usize, crate::util::object_model::ObjectInfo>,
    object: usize,
    addr: usize,
) -> usize {
    if !from_space {
        object
    } else {
        match m[object].forwarding {
            ForwardingState::Forwarded(to) => to,
            _ => addr,
        }
    }
}

impl CopySpace {
    pub open spec fn wf(&self) -> bool {
        self.common.wf()
    }

    pub fn new(
        name: &'static str,
        from_space: bool,
        zeroed: bool,
        request: VMRequest,
        heap: &mut HeapMeta,
    ) -> (r: Self)
        requires
            old(heap).wf(),
            old(heap).space_count < usize::MAX,
            request_fits(request, *old(heap)),
        ensures
            r.wf(),
            r.from_space == from_space,
            r.common == SpaceCommon::new_spec(name, zeroed, request, *old(heap)),
            *final(heap) == SpaceCommon::new_heap_spec(request, *old(heap)),
    {
        CopySpace { common: SpaceCommon::new(name, zeroed, request, heap), from_space }
    }

    pub fn init(&mut self)
        ensures
            *final(self) == (CopySpace {
                common: SpaceCommon { initialized: true, ..old(self).common },
                ..*old(self)
            }),
    {
        self.common.init();
    }

    /// Sets whether the space is the from-space of the coming collection.
    pub fn prepare(&mut self, from_space: bool)
        ensures
            *final(self) == (CopySpace { from_space, ..*old(self) }),
    {
        self.from_space = from_space;
    }

    /// Gives back every page of the space; the space is no longer a from-space.
    pub fn release(&mut self)
        requires
            old(self).wf(),
        ensures
            final(self).wf(),
            final(self).common == (SpaceCommon {
                cursor: old(self).common.start,
                reserved_pages: 0,
                ..old(self).common
            }),
            !final(self).from_space,
    {
        self.common.release();
        self.from_space = false;
    }

    pub fn in_space(&self, object: ObjectReference) -> (r: bool)
        requires
            self.wf(),
        ensures
            r == self.common.contains(object.0 as int),
    {
        self.common.in_space(object)
    }

    pub fn reserved_pages(&self) -> (r: usize)
        ensures
            r == self.common.reserved_pages,
    {
        self.common.reserved_pages
    }

    /// Traces `object`, which lies in this space. Outside a from-space the object
    /// stays where it is. In a from-space it is copied into `to_space` the first
    /// time, the copy is queued for scanning, and the object points to its copy;
    /// later traces return the copy. Where no memory can be had for the copy, the null
    /// reference is returned and no object changes.
    pub fn trace_object<C: CopyContext>(
        &self,
        trace: &mut ProcessEdgesBase,
        objects: &mut ObjectTable,
        object: ObjectReference,
        semantics: AllocationSemantics,
        copy_context: &mut C,
        to_space: &mut SpaceCommon,
    ) -> (r: ObjectReference)
        requires
            old(objects).wf(),
            old(objects)@.contains_key(object.0),
            old(copy_context).allocator_view().wf(),
            old(to_space).wf(),
        ensures
            ({
                let m = old(objects)@;
                let info = m[object.0];
                let copying = self.from_space && info.forwarding is NotForwarded;
                let (a2, s2, addr) = bump_alloc_spec(
                    old(copy_context).allocator_view(),
                    *old(to_space),
                    info.size as int,
                    info.align as int,
                    0,
                );
                &&& r.0 == copy_trace_result(self.from_space, m, object.0, addr)
                &&& final(objects)@ == copy_trace_objects(self.from_space, m, object.0, addr)
                &&& copying ==> final(copy_context).allocator_view() == a2 && *final(to_space) == s2
                &&& !copying ==> final(copy_context).allocator_view() == old(
                    copy_context,
                ).allocator_view() && *final(to_space) == *old(to_space)
                &&& final(trace).nodes@ == if copying && addr != 0 {
                    old(trace).nodes@.push(r)
                } else {
                    old(trace).nodes@
                }
                &&& final(trace).edges@ == old(trace).edges@
            }),
            final(copy_context).allocator_view().wf(),
            final(to_space).wf(),
            final(objects).wf(),
    {
        if !self.from_space {
            return object;
        }
        let ghost m = objects@;
        let forwarding_status = attempt_to_forward(objects, object);
        if state_is_forwarded_or_being_forwarded(forwarding_status) {
            spin_and_get_forwarded_object(objects, object, forwarding_status)
        } else {
            let new_object = forward_object(objects, object, semantics, copy_context, to_space);
            proof {
                let info = m[object.0];
                assert(with_forwarding(info, ForwardingState::NotForwarded) == info);
                if new_object.0 == 0 {
                    assert(objects@ =~= m);
                }
            }
            proof {
                let info = m[object.0];
                if new_object.0 != 0 {
                    assert forall|a: usize| #[trigger] objects@.contains_key(a) implies object_wf(objects@[a]) by {
                        if a != object.0 && a != new_object.0 {
                            assert(m.contains_key(a));
                        }
                    }
                }
            }
            if !new_object.is_null() {
                trace.process_node(new_object);
            }
            new_object
        }
    }
}

} // verus!
