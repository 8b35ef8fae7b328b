pub mod laws;
pub mod stack;
pub mod value;
