//! NZXT wire protocols.

pub mod nzxt;
pub mod nzxt_control_hub;
pub mod nzxt_kraken;
