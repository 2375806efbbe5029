//! Devices.

pub mod mouse;
