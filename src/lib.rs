//! Prepaid, time-bounded access packages: a catalog of packages, a per-owner
//! order ledger, one-shot crediting of purchased time, and a pausable clock
//! over each time balance.
pub mod model;
pub mod clock;
pub mod ledger;
pub mod rules;
