pub mod allocators;
pub mod bump_allocator;

pub use self::allocators::{AllocatorMapping, AllocatorSelector, Allocators};
pub use self::bump_allocator::BumpAllocator;
