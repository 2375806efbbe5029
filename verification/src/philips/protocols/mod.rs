//! Philips wire protocols.

pub mod philips_evnia;
