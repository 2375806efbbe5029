//! Philips devices.

pub mod evnia_49;
pub mod evnia_49_ambiglow;
