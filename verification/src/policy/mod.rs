pub mod copyspace;
pub mod immortalspace;
pub mod space;
