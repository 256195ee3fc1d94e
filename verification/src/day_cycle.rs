pub mod prelude;
pub mod week;
pub mod akan;
