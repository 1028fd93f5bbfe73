use vstd::prelude::*;
use crate::util::address::OpaquePointer;
use crate::util::allocator::allocators::{AllocatorMapping, AllocatorSelector, Allocators};

verus! {

/// What a mutator does when a collection prepares or releases it.
#[derive(Clone, Copy, Debug, PartialEq, Eq, Structural)]
pub enum MutatorHook {
    /// The plan never collects, and never calls the hook.
    Unreachable,
    /// Nothing.
    Nothing,
    /// Binds the default bump-pointer allocator to the young space again.
    RebindToYoungspace,
}

/// The read and write barrier of a mutator.
#[derive(Clone, Copy, Debug, PartialEq, Eq, Structural)]
pub enum Barrier {
    NoBarrier,
}

/// How a plan sets up its mutators: which allocator serves each kind of
/// allocation, the space each allocator is bound to (by space index), and what
/// the mutator does when a collection prepares and releases it.
pub struct MutatorConfig {
    pub allocator_mapping: AllocatorMapping,
    pub space_mapping: Vec<(AllocatorSelector, usize)>,
    pub prepare_func: MutatorHook,
    pub release_func: MutatorHook,
}

/// A mutator thread's allocation context under plan `P`.
pub struct Mutator<'a, P> {
    pub allocators: Allocators,
    pub barrier: Barrier,
    pub mutator_tls: OpaquePointer,
    pub config: MutatorConfig,
    pub plan: &'a P,
}

} // verus!
