pub mod text;
pub mod format;
pub mod private;
pub mod prelude;
pub mod week;
pub mod gregorian;
pub mod julian;
pub mod holocene;
pub mod coptic;
pub mod armenian;
pub mod positivist;
pub mod iso;
pub mod egyptian;
pub mod cotsworth;
pub mod french_rev;
pub mod tranquility;
pub mod roman;
pub mod akan;
