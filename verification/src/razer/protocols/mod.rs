//! Wire formats.

pub mod razer;
