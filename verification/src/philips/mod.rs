//! Philips Evnia monitors.

pub mod devices;
pub mod protocols;
