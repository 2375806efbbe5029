//! Logitech devices.

pub mod protocols;
