pub mod gc_works;
pub mod global;

pub use self::global::MyGC;
