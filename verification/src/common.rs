pub mod date;
pub mod error;
pub mod math;
