//! Wire formats.

pub mod hidpp;
