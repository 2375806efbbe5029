//! SteelSeries wire protocols.

pub mod steelseries_arctis;
