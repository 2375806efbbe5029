//! Razer mice.

pub mod devices;
pub mod protocols;
