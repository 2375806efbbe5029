//! NVIDIA graphics cards.

pub mod devices;
