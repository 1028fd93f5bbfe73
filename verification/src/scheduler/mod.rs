pub mod gc_works;

pub use self::gc_works::{ProcessEdgesBase, Scheduler, Work};
