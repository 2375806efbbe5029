//! Device drivers for RGB, cooling and input peripherals: the wire formats,
//! caches, state machines and layout rules of each supported device, without
//! the transports that carry the bytes.

pub mod bytes;
pub mod elevation;
pub mod logitech;
pub mod nvidia;
pub mod nzxt;
pub mod philips;
pub mod razer;
pub mod rgb;
pub mod steelseries;
pub mod text;
pub mod types;
pub mod zotac;
