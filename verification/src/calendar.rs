pub mod arith;
pub mod prelude;
pub mod gregorian;
pub mod julian;
pub mod egyptian;
pub mod armenian;
pub mod coptic;
pub mod cotsworth;
pub mod ethiopic;
pub mod holocene;
pub mod positivist;
pub mod roman;
pub mod symmetry;
pub mod tranquility;
pub mod french_rev_arith;
pub mod iso;
pub mod olympiad;
pub mod akan;
