//! Garbage-collection plans of a memory-management toolkit: semispace and
//! three-space copying plans, a non-collecting immortal plan, their spaces,
//! allocators and mutator set-up, and the requests that reserve virtual memory
//! for spaces.
pub mod plan;
pub mod policy;
pub mod scheduler;
pub mod util;
