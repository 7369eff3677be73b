pub mod concrete;
pub mod gate_operation;
pub mod raw_traits;
pub mod raw_types;
