//! NZXT devices.

pub mod control_hub;
pub mod f_fan;
pub mod kraken;
