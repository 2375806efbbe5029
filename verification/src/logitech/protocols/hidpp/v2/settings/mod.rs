//! Device settings.

pub mod dpi;
pub mod onboard;
pub mod report_rate;
