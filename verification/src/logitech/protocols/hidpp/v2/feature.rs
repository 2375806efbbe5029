//! Feature codes.

use vstd::prelude::*;

verus! {

pub const ROOT: u16 = 0x0000;

pub const FEATURE_SET: u16 = 0x0001;

pub const FIRMWARE_VERSION: u16 = 0x0003;

pub const DEVICE_NAME: u16 = 0x0005;

pub const BATTERY_VOLTAGE: u16 = 0x1001;

pub const UNIFIED_BATTERY: u16 = 0x1004;

pub const ADC_MEASUREMENT: u16 = 0x1F20;

pub const ADJUSTABLE_DPI: u16 = 0x2201;

pub const EXTENDED_ADJUSTABLE_DPI: u16 = 0x2202;

pub const REPORT_RATE: u16 = 0x8060;

pub const EXT_REPORT_RATE: u16 = 0x8061;

pub const RGB_EFFECTS: u16 = 0x8071;

pub const COLOR_LED_EFFECTS: u16 = 0x8070;

pub const PER_KEY_LIGHTING_V2: u16 = 0x8081;

pub const ONBOARD_PROFILES: u16 = 0x8100;

pub const KEYBOARD_LAYOUT_2: u16 = 0x4540;

pub const REPROG_CONTROLS_V4: u16 = 0x1B04;

pub const GKEY: u16 = 0x8010;

pub const CONTROL_LIST: u16 = 0x1B10;

pub const REPORT_HID_USAGE: u16 = 0x1BC0;

pub const FULL_KEY_CUSTOMIZATION: u16 = 0x1B05;

pub const MOUSE_BUTTON_SPY: u16 = 0x8110;

pub const SIDETONE: u16 = 0x8300;

pub const EQUALIZER: u16 = 0x8310;

} // verus!
