//! NZXT fan hubs and Kraken coolers.

pub mod devices;
pub mod protocols;
