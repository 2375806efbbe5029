//! Devices.

pub mod spectra_gpu;
