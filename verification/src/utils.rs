pub mod decimal;
pub mod extra_traits;
pub mod lexicographic;
