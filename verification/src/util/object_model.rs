use vstd::prelude::*;
use std::collections::HashMap;
use crate::plan::{AllocationSemantics, CopyContext};
use crate::policy::space::SpaceCommon;
use crate::util::address::{Address, ObjectReference};

verus! {

broadcast use vstd::std_specs::hash::group_hash_axioms;

/// The state of an object's forwarding bits.
#[derive(Clone, Copy, Debug, PartialEq, Eq, Structural)]
pub enum ForwardingState {
    NotForwarded,
    BeingForwarded,
    Forwarded(Address),
}

/// What the collector reads of an object: its size and alignment in bytes, its
/// forwarding state, and its mark bit.
#[derive(Clone, Copy, Debug, PartialEq, Eq, Structural)]
pub struct ObjectInfo {
    pub size: usize,
    pub align: usize,
    pub forwarding: ForwardingState,
    pub mark: u8,
}

/// The objects of the heap, by address.
pub struct ObjectTable {
    pub objects: HashMap<Address, ObjectInfo>,
}

impl View for ObjectTable {
    type V = Map<Address, ObjectInfo>;

    open spec fn view(&self) -> Map<Address, ObjectInfo> {
        self.objects@
    }
}

/// An object that the collector may meet between two collection steps: it has a
/// size and an alignment, its mark bit is 0 or 1, and no copy of it is under way.
pub open spec fn object_wf(info: ObjectInfo) -> bool {
    &&& info.size > 0
    &&& info.align > 0
    &&& info.mark <= 1
    &&& !(info.forwarding is BeingForwarded)
}

/// Every object of `m` is well formed, and none lies at address 0.
pub open spec fn objects_wf(m: Map<Address, ObjectInfo>) -> bool {
    &&& !m.contains_key(0)
    &&& forall|a: Address| #[trigger] m.contains_key(a) ==> object_wf(m[a])
}

/// Where the object at `object` was copied to, if it was.
pub open spec fn forwarded_to(m: Map<Address, ObjectInfo>, object: Address) -> Option<Address> {
    if m.contains_key(object) {
        match m[object].forwarding {
            ForwardingState::Forwarded(to) => Some(to),
            _ => None,
        }
    } else {
        None
    }
}

/// `info` with its forwarding state set to `state`.
pub open spec fn with_forwarding(info: ObjectInfo, state: ForwardingState) -> ObjectInfo {
    ObjectInfo { forwarding: state, ..info }
}

impl ObjectTable {
    pub open spec fn wf(&self) -> bool {
        objects_wf(self@)
    }

    pub fn new() -> (r: Self)
        ensures
            r@ == Map::<Address, ObjectInfo>::empty(),
            r.wf(),
    {
        ObjectTable { objects: HashMap::new() }
    }

    /// Records a new object of `size` bytes and alignment `align` at `addr`, neither
    /// forwarded nor marked.
    pub fn add(&mut self, addr: Address, size: usize, align: usize)
        requires
            old(self).wf(),
            addr != 0,
            size > 0,
            align > 0,
        ensures
            final(self).wf(),
            final(self)@ == old(self)@.insert(
                addr,
                ObjectInfo { size, align, forwarding: ForwardingState::NotForwarded, mark: 0 },
            ),
    {
        self.objects.insert(
            addr,
            ObjectInfo { size, align, forwarding: ForwardingState::NotForwarded, mark: 0 },
        );
        assert(objects_wf(self@));
    }

    pub fn get(&self, object: ObjectReference) -> (r: Option<ObjectInfo>)
        ensures
            r == (if self@.contains_key(object.0) {
                Some(self@[object.0])
            } else {
                None
            }),
    {
        match self.objects.get(&object.0) {
            Some(info) => Some(*info),
            None => None,
        }
    }

    /// Writes `info` as the object at `object`.
    pub fn set(&mut self, object: ObjectReference, info: ObjectInfo)
        ensures
            final(self)@ == old(self)@.insert(object.0, info),
    {
        self.objects.insert(object.0, info);
    }
}

/// Copies the object `from` to memory that `copy_context` allocates in `space`, and
/// returns the copy; the null reference when no memory could be had.
pub fn copy<C: CopyContext>(
    objects: &mut ObjectTable,
    from: ObjectReference,
    semantics: AllocationSemantics,
    copy_context: &mut C,
    space: &mut SpaceCommon,
) -> (r: ObjectReference)
    requires
        old(objects)@.contains_key(from.0),
        object_wf(old(objects)@[from.0]) || old(objects)@[from.0].forwarding is BeingForwarded,
        old(objects)@[from.0].align > 0,
        old(copy_context).allocator_view().wf(),
        old(space).wf(),
    ensures
        ({
            let info = old(objects)@[from.0];
            let (a2, s2, addr) = crate::util::allocator::bump_allocator::bump_alloc_spec(
                old(copy_context).allocator_view(),
                *old(space),
                info.size as int,
                info.align as int,
                0,
            );
            &&& final(copy_context).allocator_view() == a2
            &&& *final(space) == s2
            &&& r.0 == addr
            &&& addr == 0 ==> final(objects)@ == old(objects)@
            &&& addr != 0 ==> final(objects)@ == old(objects)@.insert(
                addr,
                with_forwarding(info, ForwardingState::NotForwarded),
            )
        }),
        final(copy_context).allocator_view().wf(),
        final(space).wf(),
{
    let info = match objects.get(from) {
        Some(info) => info,
        None => {
            proof {
                assert(false);
            }
            return ObjectReference::null();
        },
    };
    let addr = copy_context.alloc_copy(space, from, info.size, info.align, 0, semantics);
    if addr == 0 {
        return ObjectReference::null();
    }
    let to = ObjectReference(addr);
    objects.set(to, info);
    copy_context.post_copy(objects, to, 0, info.size, semantics);
    proof {
        assert(objects@ =~= old(objects)@.insert(
            addr,
            with_forwarding(info, ForwardingState::NotForwarded),
        ));
    }
    to
}

} // verus!
