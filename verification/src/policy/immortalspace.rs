use vstd::prelude::*;
use crate::policy::space::{request_fits, SpaceCommon};
use crate::scheduler::gc_works::ProcessEdgesBase;
use crate::util::address::ObjectReference;
use crate::util::heap::heap_meta::HeapMeta;
use crate::util::heap::vmrequest::VMRequest;
use crate::util::object_model::{ObjectInfo, ObjectTable};

verus! {

/// The mark bit in an object's header.
pub const GC_MARK_BIT_MASK: u8 = 1;

/// A space whose objects never move and are never reclaimed. Tracing marks an
/// object with the space's current mark state; preparing a collection flips that
/// state, so that every object counts as unmarked again.
pub struct ImmortalSpace {
    pub common: SpaceCommon,
    pub mark_state: u8,
}

/// `m` after tracing `object` with mark state `mark_state`.
pub open spec fn mark_trace_objects(m: Map<usize, ObjectInfo>, object: usize, mark_state: u8) -> Map<
    usize,
    ObjectInfo,
> {
    if m[object].mark != mark_state {
        m.insert(object, ObjectInfo { mark: mark_state, ..m[object] })
    } else {
        m
    }
}

impl ImmortalSpace {
    pub open spec fn wf(&self) -> bool {
        self.common.wf() && self.mark_state <= 1
    }

    pub fn new(name: &'static str, zeroed: bool, request: VMRequest, heap: &mut HeapMeta) -> (r: Self)
        requires
            old(heap).wf(),
            old(heap).space_count < usize::MAX,
            request_fits(request, *old(heap)),
        ensures
            r.wf(),
            r.mark_state == 0,
            r.common == SpaceCommon::new_spec(name, zeroed, request, *old(heap)),
            *final(heap) == SpaceCommon::new_heap_spec(request, *old(heap)),
    {
        ImmortalSpace { common: SpaceCommon::new(name, zeroed, request, heap), mark_state: 0 }
    }

    pub fn init(&mut self)
        ensures
            *final(self) == (ImmortalSpace {
                common: SpaceCommon { initialized: true, ..old(self).common },
                ..*old(self)
            }),
    {
        self.common.init();
    }

    /// Flips the mark state.
    pub fn prepare(&mut self)
        requires
            old(self).wf(),
        ensures
            final(self).wf(),
            *final(self) == (ImmortalSpace {
                mark_state: (GC_MARK_BIT_MASK - old(self).mark_state) as u8,
                ..*old(self)
            }),
    {
        self.mark_state = GC_MARK_BIT_MASK - self.mark_state;
    }

    /// Nothing is reclaimed.
    pub fn release(&mut self)
        ensures
            *final(self) == *old(self),
    {
    }

    pub fn in_space(&self, object: ObjectReference) -> (r: bool)
        requires
            self.wf(),
        ensures
            r == self.common.contains(object.0 as int),
    {
        self.common.in_space(object)
    }

    pub fn reserved_pages(&self) -> (r: usize)
        ensures
            r == self.common.reserved_pages,
    {
        self.common.reserved_pages
    }

    /// Marks `object` with `value`; returns whether it was not marked so before.
    pub fn test_and_mark(objects: &mut ObjectTable, object: ObjectReference, value: u8) -> (r: bool)
        requires
            old(objects)@.contains_key(object.0),
        ensures
            r == (old(objects)@[object.0].mark != value),
            final(objects)@ == mark_trace_objects(old(objects)@, object.0, value),
    {
        match objects.get(object) {
            Some(info) => {
                if info.mark == value {
                    false
                } else {
                    objects.set(object, ObjectInfo { mark: value, ..info });
                    true
                }
            },
            None => {
                proof {
                    assert(false);
                }
                false
            },
        }
    }

    /// Traces `object`, which lies in this space: the object stays where it is, and
    /// the first trace in a collection marks it and queues it for scanning.
    pub fn trace_object(&self, trace: &mut ProcessEdgesBase, objects: &mut ObjectTable, object: ObjectReference) -> (r: ObjectReference)
        requires
            self.wf(),
            old(objects).wf(),
            old(objects)@.contains_key(object.0),
        ensures
            r == object,
            final(objects).wf(),
            final(objects)@ == mark_trace_objects(old(objects)@, object.0, self.mark_state),
            final(trace).nodes@ == if old(objects)@[object.0].mark != self.mark_state {
                old(trace).nodes@.push(object)
            } else {
                old(trace).nodes@
            },
            final(trace).edges@ == old(trace).edges@,
    {
        if Self::test_and_mark(objects, object, self.mark_state) {
            trace.process_node(object);
        }
        proof {
            assert forall|a: usize| #[trigger] objects@.contains_key(a) implies crate::util::object_model::object_wf(objects@[a]) by {
                if a != object.0 {
                    assert(old(objects)@.contains_key(a));
                }
            }
        }
        object
    }
}

/// Tracing an object twice with the same mark state marks it once: the second trace
/// changes nothing and queues nothing.
pub proof fn lemma_mark_twice(m: Map<usize, ObjectInfo>, object: usize, mark_state: u8)
    requires
        m.contains_key(object),
    ensures
        mark_trace_objects(mark_trace_objects(m, object, mark_state), object, mark_state)
            == mark_trace_objects(m, object, mark_state),
        mark_trace_objects(m, object, mark_state)[object].mark == mark_state,
{
}

/// Preparing two collections brings the mark state back.
pub proof fn lemma_prepare_twice(mark_state: u8)
    requires
        mark_state <= 1,
    ensures
        GC_MARK_BIT_MASK - (GC_MARK_BIT_MASK - mark_state) == mark_state,
        GC_MARK_BIT_MASK - mark_state != mark_state,
{
}

} // verus!
