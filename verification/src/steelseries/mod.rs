//! SteelSeries headsets.

pub mod devices;
pub mod protocols;
