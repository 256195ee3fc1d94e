pub mod calendar;
pub mod common;
pub mod day_count;
pub mod day_cycle;
pub mod display;
