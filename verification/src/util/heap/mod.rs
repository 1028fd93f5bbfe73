pub mod heap_meta;
pub mod layout;
pub mod vmrequest;

pub use self::heap_meta::HeapMeta;
pub use self::vmrequest::VMRequest;
