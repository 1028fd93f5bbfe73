pub mod constraints;
pub mod gc_works;
pub mod global;
pub mod mutator;

pub use self::global::TripleSpace;
