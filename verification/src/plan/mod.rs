pub mod global;
pub mod mutator_context;
pub mod mygc;
pub mod singlesemi;
pub mod triplespace;
pub mod withmut;

use vstd::prelude::*;
use crate::policy::space::SpaceCommon;
use crate::util::address::{Address, ObjectReference};
use crate::util::allocator::bump_allocator::{bump_alloc_spec, BumpAllocator};
use crate::util::forwarding_word::clear_forwarding_bits_spec;
use crate::util::object_model::ObjectTable;

verus! {

/// The kinds of allocation that a mutator may ask for.
#[derive(Clone, Copy, Debug, PartialEq, Eq, Structural)]
pub enum AllocationSemantics {
    Default,
    Immortal,
    Los,
    Code,
    ReadOnly,
}

/// A collector thread's allocator for the copies of objects that a copying
/// collection moves.
pub trait CopyContext {
    /// The bump allocator that the copies are taken from.
    spec fn allocator_view(&self) -> BumpAllocator;

    /// Allocates `bytes` bytes in `space` for a copy of `original`.
    fn alloc_copy(
        &mut self,
        space: &mut SpaceCommon,
        original: ObjectReference,
        bytes: usize,
        align: usize,
        offset: isize,
        semantics: AllocationSemantics,
    ) -> (r: Address)
        requires
            align > 0,
            offset >= 0,
            old(self).allocator_view().wf(),
            old(space).wf(),
        ensures
            final(self).allocator_view().wf(),
            final(space).wf(),
            (final(self).allocator_view(), *final(space), r) == bump_alloc_spec(
                old(self).allocator_view(),
                *old(space),
                bytes as int,
                align as int,
                offset as int,
            ),
    ;

    /// Finishes the copy `object`: its forwarding bits, copied from the original, are
    /// cleared.
    fn post_copy(
        &mut self,
        objects: &mut ObjectTable,
        object: ObjectReference,
        tib: Address,
        bytes: usize,
        semantics: AllocationSemantics,
    )
        ensures
            final(self).allocator_view() == old(self).allocator_view(),
            final(objects)@ == clear_forwarding_bits_spec(old(objects)@, object.0),
    ;
}

} // verus!
