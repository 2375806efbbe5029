//! Zotac graphics cards.

pub mod devices;
pub mod protocols;
