//! Wire formats.

pub mod spectra_blackwell;
