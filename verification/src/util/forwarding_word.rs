use vstd::prelude::*;
use crate::plan::{AllocationSemantics, CopyContext};
use crate::policy::space::SpaceCommon;
use crate::util::address::ObjectReference;
use crate::util::allocator::bump_allocator::bump_alloc_spec;
use crate::util::object_model::{
    copy, with_forwarding, ForwardingState, ObjectInfo, ObjectTable,
};

verus! {

/// `m` with the forwarding bits of the object at `object` cleared.
pub open spec fn clear_forwarding_bits_spec(m: Map<usize, ObjectInfo>, object: usize) -> Map<
    usize,
    ObjectInfo,
> {
    if m.contains_key(object) {
        m.insert(object, with_forwarding(m[object], ForwardingState::NotForwarded))
    } else {
        m
    }
}

/// Claims the object for copying: an object that is not forwarded becomes
/// "being forwarded". Returns the state that the object had.
pub fn attempt_to_forward(objects: &mut ObjectTable, object: ObjectReference) -> (r: ForwardingState)
    requires
        old(objects)@.contains_key(object.0),
    ensures
        r == old(objects)@[object.0].forwarding,
        r is NotForwarded ==> final(objects)@ == old(objects)@.insert(
            object.0,
            with_forwarding(old(objects)@[object.0], ForwardingState::BeingForwarded),
        ),
        !(r is NotForwarded) ==> final(objects)@ == old(objects)@,
{
    let info = match objects.get(object) {
        Some(info) => info,
        None => {
            proof {
                assert(false);
            }
            return ForwardingState::NotForwarded;
        },
    };
    match info.forwarding {
        ForwardingState::NotForwarded => {
            objects.set(
                object,
                ObjectInfo { forwarding: ForwardingState::BeingForwarded, ..info },
            );
        },
        _ => {},
    }
    info.forwarding
}

pub fn state_is_forwarded_or_being_forwarded(state: ForwardingState) -> (r: bool)
    ensures
        r == !(state is NotForwarded),
{
    match state {
        ForwardingState::NotForwarded => false,
        _ => true,
    }
}

/// The address that the object was forwarded to. A copy in progress is finished by
/// the thread that started it; with one collector thread none is in progress here.
pub fn spin_and_get_forwarded_object(
    objects: &ObjectTable,
    object: ObjectReference,
    state: ForwardingState,
) -> (r: ObjectReference)
    requires
        objects@.contains_key(object.0),
        objects@[object.0].forwarding is Forwarded,
        state == objects@[object.0].forwarding,
    ensures
        objects@[object.0].forwarding == ForwardingState::Forwarded(r.0),
{
    match state {
        ForwardingState::Forwarded(to) => ObjectReference(to),
        _ => {
            proof {
                assert(false);
            }
            ObjectReference::null()
        },
    }
}

/// Records that `object` now lives at `new_object`.
pub fn set_forwarding_pointer(objects: &mut ObjectTable, object: ObjectReference, new_object: ObjectReference)
    requires
        old(objects)@.contains_key(object.0),
    ensures
        final(objects)@ == old(objects)@.insert(
            object.0,
            with_forwarding(old(objects)@[object.0], ForwardingState::Forwarded(new_object.0)),
        ),
{
    let info = match objects.get(object) {
        Some(info) => info,
        None => {
            proof {
                assert(false);
            }
            return;
        },
    };
    objects.set(object, ObjectInfo { forwarding: ForwardingState::Forwarded(new_object.0), ..info });
}

pub fn clear_forwarding_bits(objects: &mut ObjectTable, object: ObjectReference)
    ensures
        final(objects)@ == clear_forwarding_bits_spec(old(objects)@, object.0),
{
    match objects.get(object) {
        Some(info) => {
            objects.set(object, ObjectInfo { forwarding: ForwardingState::NotForwarded, ..info });
        },
        None => {},
    }
}

/// Copies an object that is being forwarded into `space` and leaves a forwarding
/// pointer to the copy behind. Where no memory can be had for the copy, the object
/// is left where it is, not forwarded, and the null reference is returned.
pub fn forward_object<C: CopyContext>(
    objects: &mut ObjectTable,
    object: ObjectReference,
    semantics: AllocationSemantics,
    copy_context: &mut C,
    space: &mut SpaceCommon,
) -> (r: ObjectReference)
    requires
        old(objects)@.contains_key(object.0),
        old(objects)@[object.0].forwarding is BeingForwarded,
        old(objects)@[object.0].align > 0,
        old(copy_context).allocator_view().wf(),
        old(space).wf(),
    ensures
        ({
            let info = old(objects)@[object.0];
            let (a2, s2, addr) = bump_alloc_spec(
                old(copy_context).allocator_view(),
                *old(space),
                info.size as int,
                info.align as int,
                0,
            );
            &&& final(copy_context).allocator_view() == a2
            &&& *final(space) == s2
            &&& r.0 == addr
            &&& addr == 0 ==> final(objects)@ == old(objects)@.insert(
                object.0,
                with_forwarding(info, ForwardingState::NotForwarded),
            )
            &&& addr != 0 ==> final(objects)@ == old(objects)@.insert(
                addr,
                with_forwarding(info, ForwardingState::NotForwarded),
            ).insert(object.0, with_forwarding(info, ForwardingState::Forwarded(addr)))
        }),
        final(copy_context).allocator_view().wf(),
        final(space).wf(),
{
    let ghost info = objects@[object.0];
    let new_object = copy(objects, object, semantics, copy_context, space);
    if new_object.is_null() {
        clear_forwarding_bits(objects, object);
        return new_object;
    }
    proof {
        assert(objects@.contains_key(object.0));
        if new_object.0 == object.0 {
            assert(objects@[object.0] == with_forwarding(info, ForwardingState::NotForwarded));
        } else {
            assert(objects@[object.0] == info);
        }
    }
    set_forwarding_pointer(objects, object, new_object);
    proof {
        assert(objects@ =~= old(objects)@.insert(
            new_object.0,
            with_forwarding(info, ForwardingState::NotForwarded),
        ).insert(object.0, with_forwarding(info, ForwardingState::Forwarded(new_object.0))));
    }
    new_object
}

} // verus!
