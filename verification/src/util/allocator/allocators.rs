use vstd::prelude::*;
use crate::plan::AllocationSemantics;
use crate::util::address::OpaquePointer;
use crate::util::allocator::bump_allocator::BumpAllocator;

verus! {

/// The number of bump-pointer allocators that a mutator has.
pub const MAX_BUMP_ALLOCATORS: usize = 2;

/// The number of large-object allocators that a mutator has.
pub const MAX_LARGE_OBJECT_ALLOCATORS: usize = 1;

/// One of a mutator's allocators: its kind and its index among those of that kind.
#[derive(Clone, Copy, Debug, PartialEq, Eq, Structural)]
pub enum AllocatorSelector {
    BumpPointer(u8),
    LargeObject(u8),
}

/// Which allocator serves each kind of allocation: one field per kind. (An
/// `enum_map::EnumMap` keyed by the kinds would need an `enum_map::Enum` impl on
/// `AllocationSemantics`, which the library cannot have; `app/` builds that table
/// from this one.)
#[derive(Clone, Copy, Debug, PartialEq, Eq, Structural)]
pub struct AllocatorMapping {
    pub default: AllocatorSelector,
    pub immortal: AllocatorSelector,
    pub los: AllocatorSelector,
    pub code: AllocatorSelector,
    pub read_only: AllocatorSelector,
}

impl AllocatorMapping {
    pub open spec fn get_spec(&self, semantics: AllocationSemantics) -> AllocatorSelector {
        match semantics {
            AllocationSemantics::Default => self.default,
            AllocationSemantics::Immortal => self.immortal,
            AllocationSemantics::Los => self.los,
            AllocationSemantics::Code => self.code,
            AllocationSemantics::ReadOnly => self.read_only,
        }
    }

    pub fn get(&self, semantics: AllocationSemantics) -> (r: AllocatorSelector)
        ensures
            r == self.get_spec(semantics),
    {
        match semantics {
            AllocationSemantics::Default => self.default,
            AllocationSemantics::Immortal => self.immortal,
            AllocationSemantics::Los => self.los,
            AllocationSemantics::Code => self.code,
            AllocationSemantics::ReadOnly => self.read_only,
        }
    }
}

/// A large-object allocator: it takes whole pages from its space for each object.
#[derive(Clone, Copy, Debug, PartialEq, Eq, Structural)]
pub struct LargeObjectAllocator {
    pub tls: OpaquePointer,
    pub space: Option<usize>,
}

/// A mutator's allocators.
pub struct Allocators {
    pub bump_pointer: Vec<BumpAllocator>,
    pub large_object: Vec<LargeObjectAllocator>,
}

/// Whether a mutator has the allocator that `selector` names.
pub open spec fn selector_valid(selector: AllocatorSelector) -> bool {
    match selector {
        AllocatorSelector::BumpPointer(i) => i < MAX_BUMP_ALLOCATORS,
        AllocatorSelector::LargeObject(i) => i < MAX_LARGE_OBJECT_ALLOCATORS,
    }
}

/// The space that the last entry of `mapping` for `selector` names, if any.
pub open spec fn mapped_space(mapping: Seq<(AllocatorSelector, usize)>, selector: AllocatorSelector) -> Option<usize>
    decreases mapping.len(),
{
    if mapping.len() == 0 {
        None
    } else if mapping.last().0 == selector {
        Some(mapping.last().1)
    } else {
        mapped_space(mapping.drop_last(), selector)
    }
}

impl Allocators {
    /// The allocators that `space_mapping` binds: each allocator it names is bound to
    /// the space of the last entry that names it; the others are bound to no space.
    pub open spec fn bound_by(&self, tls: OpaquePointer, space_mapping: Seq<(AllocatorSelector, usize)>) -> bool {
        &&& self.bump_pointer@.len() == MAX_BUMP_ALLOCATORS
        &&& self.large_object@.len() == MAX_LARGE_OBJECT_ALLOCATORS
        &&& forall|i: int| 0 <= i < MAX_BUMP_ALLOCATORS ==> #[trigger] self.bump_pointer@[i] == (BumpAllocator {
            tls,
            space: mapped_space(space_mapping, AllocatorSelector::BumpPointer(i as u8)),
            cursor: 0,
            limit: 0,
        })
        &&& forall|i: int| 0 <= i < MAX_LARGE_OBJECT_ALLOCATORS ==> #[trigger] self.large_object@[i] == (LargeObjectAllocator {
            tls,
            space: mapped_space(space_mapping, AllocatorSelector::LargeObject(i as u8)),
        })
    }

    pub fn new(mutator_tls: OpaquePointer, space_mapping: &Vec<(AllocatorSelector, usize)>) -> (r: Self)
        requires
            forall|i: int| 0 <= i < space_mapping@.len() ==> selector_valid(#[trigger] space_mapping@[i].0),
        ensures
            r.bound_by(mutator_tls, space_mapping@),
    {
        let mut bump_pointer: Vec<BumpAllocator> = Vec::new();
        let mut b: usize = 0;
        while b < MAX_BUMP_ALLOCATORS
            invariant
                b <= MAX_BUMP_ALLOCATORS,
                bump_pointer@.len() == b,
                forall|i: int| 0 <= i < b ==> #[trigger] bump_pointer@[i] == (BumpAllocator {
                    tls: mutator_tls,
                    space: None,
                    cursor: 0,
                    limit: 0,
                }),
            decreases MAX_BUMP_ALLOCATORS - b,
        {
            bump_pointer.push(BumpAllocator::new(mutator_tls, None));
            b = b + 1;
        }
        let mut large_object: Vec<LargeObjectAllocator> = Vec::new();
        let mut l: usize = 0;
        while l < MAX_LARGE_OBJECT_ALLOCATORS
            invariant
                l <= MAX_LARGE_OBJECT_ALLOCATORS,
                large_object@.len() == l,
                forall|i: int| 0 <= i < l ==> #[trigger] large_object@[i] == (LargeObjectAllocator {
                    tls: mutator_tls,
                    space: None,
                }),
            decreases MAX_LARGE_OBJECT_ALLOCATORS - l,
        {
            large_object.push(LargeObjectAllocator { tls: mutator_tls, space: None });
            l = l + 1;
        }
        let mut ret = Allocators { bump_pointer, large_object };
        let mut k: usize = 0;
        while k < space_mapping.len()
            invariant
                k <= space_mapping@.len(),
                forall|i: int| 0 <= i < space_mapping@.len() ==> selector_valid(#[trigger] space_mapping@[i].0),
                ret.bound_by(mutator_tls, space_mapping@.subrange(0, k as int)),
            decreases space_mapping@.len() - k,
        {
            let (selector, space) = space_mapping[k];
            proof {
                let s = space_mapping@.subrange(0, k as int + 1);
                assert(s.drop_last() =~= space_mapping@.subrange(0, k as int));
                assert(s.last() == space_mapping@[k as int]);
            }
            match selector {
                AllocatorSelector::BumpPointer(index) => {
                    ret.bump_pointer.set(index as usize, BumpAllocator::new(mutator_tls, Some(space)));
                },
                AllocatorSelector::LargeObject(index) => {
                    ret.large_object.set(index as usize, LargeObjectAllocator { tls: mutator_tls, space: Some(space) });
                },
            }
            k = k + 1;
        }
        proof {
            assert(space_mapping@.subrange(0, space_mapping@.len() as int) =~= space_mapping@);
        }
        ret
    }

    /// The bump-pointer allocator `index`, to be changed in place.
    pub fn bump_allocator_mut(&mut self, index: u8) -> (r: &mut BumpAllocator)
        requires
            (index as int) < old(self).bump_pointer@.len(),
        ensures
            *r == old(self).bump_pointer@[index as int],
            final(self).bump_pointer@ == old(self).bump_pointer@.update(index as int, *final(r)),
            final(self).large_object@ == old(self).large_object@,
    {
        &mut self.bump_pointer[index as usize]
    }
}

} // verus!
