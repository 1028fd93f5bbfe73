pub mod address;
pub mod allocator;
pub mod constants;
pub mod conversions;
pub mod forwarding_word;
pub mod heap;
pub mod object_model;

pub use self::address::{Address, ObjectReference, OpaquePointer};
