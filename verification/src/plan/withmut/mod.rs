pub mod global;
pub mod mutator;

pub use self::global::WithMut;
