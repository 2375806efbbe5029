//! SteelSeries devices.
pub mod arctis_nova_pro_wireless;
