//! Philips Evnia 49M2C8900: the controls that the monitor offers over DDC/CI, the
//! values last read or set, and the frames that read and set them.

use crate::bytes::lo_byte;
use crate::philips::protocols::philips_evnia::{
    build_extended_set, build_get_extended, build_get_standard, build_write, extended_set_frame,
    get_extended_frame, get_standard_frame, write_frame, PhilipsEvnia49Protocol,
};
use crate::text::{hex, hex_string, owned, push_hex, same_text};
use crate::types::{
    copy_option, numbered_options, numerals, options_are, same_option, Action, Boolean, Choice,
    ChoiceDisplay, ChoiceOption, DeviceCapability, DeviceType, Range, WireDevice,
};
use vstd::prelude::*;
use vstd::slice::*;

verus! {

/// USB vendor id of the DDC/CI tunnel.
pub const MCCS_VID: u16 = 0x2109;

/// USB product id of the DDC/CI tunnel.
pub const MCCS_PID: u16 = 0x8884;

/// Input ports: VCP 0x60 code (low byte), identifier and label.
pub const INPUT_PORTS: [(u8, &'static str, &'static str); 4] = [
    (0x0F, "dp1", "DisplayPort 1"),
    (0x10, "dp2", "DisplayPort 2"),
    (0x11, "hdmi1", "HDMI 1"),
    (0x12, "hdmi2", "HDMI 2"),
];

/// VCP 0xCC codes of the on-screen languages.
pub const OSD_LANGUAGES: [(u8, &'static str); 21] = [
    (0x01, "Chinese (Traditional)"),
    (0x02, "English"),
    (0x03, "French"),
    (0x04, "German"),
    (0x05, "Italian"),
    (0x06, "Japanese"),
    (0x07, "Korean"),
    (0x08, "Portuguese"),
    (0x09, "Russian"),
    (0x0A, "Spanish"),
    (0x0B, "Chinese (Simplified)"),
    (0x0C, "Dutch"),
    (0x0D, "Czech"),
    (0x0E, "Polish"),
    (0x12, "Hungarian"),
    (0x14, "Turkish"),
    (0x16, "Brazilian Portuguese"),
    (0x17, "Finnish"),
    (0x1A, "Greek"),
    (0x1E, "Ukrainian"),
    (0x24, "Swedish"),
];

/// VCP 0xDC codes of the SmartImage presets, SDR first, then HDR.
pub const SMART_IMAGE_MODES: [(u8, &'static str); 17] = [
    (0x00, "Standard"),
    (0x01, "FPS"),
    (0x03, "Movie"),
    (0x04, "Game 1"),
    (0x05, "Game 2"),
    (0x06, "Racing"),
    (0x07, "RTS"),
    (0x08, "Economy"),
    (0x0B, "LowBlue Mode"),
    (0x0E, "EasyRead"),
    (0x11, "Console Mode"),
    (0x21, "HDR Game"),
    (0x22, "HDR Movie"),
    (0x23, "HDR Vivid"),
    (0x30, "HDR True Black"),
    (0x24, "HDR Personal"),
    (0x20, "HDR Off"),
];

/// VCP 0x14 codes of the colour temperatures.
pub const COLOR_TEMPERATURES: [(u8, &'static str); 8] = [
    (0x02, "Native"),
    (0x04, "5000K"),
    (0x05, "6500K"),
    (0x06, "7500K"),
    (0x07, "8200K"),
    (0x08, "9300K"),
    (0x0A, "11500K"),
    (0x0D, "Preset"),
];

/// VCP 0x72 codes of the gamma curves.
pub const GAMMA_VALUES: [(u8, &'static str); 5] = [
    (0x50, "1.0"),
    (0x64, "2.0"),
    (0x78, "2.2"),
    (0x8C, "2.4"),
    (0xA0, "2.6"),
];

/// Extended code 0x34: pixel orbiting speeds.
pub const PIXEL_ORBITING_OPTIONS: [(u8, &'static str); 4] = [
    (0x00, "Off"),
    (0x02, "Slow"),
    (0x03, "Normal"),
    (0x04, "Fast"),
];

/// Extended code 0x35: screen saver speeds.
pub const SCREEN_SAVER_OPTIONS: [(u8, &'static str); 3] = [
    (0x00, "Off"),
    (0x02, "Slow"),
    (0x03, "Fast"),
];

/// The sliders.
#[derive(Debug, Clone, Copy, PartialEq, Eq, Structural)]
pub enum RangeSetting {
    Brightness,
    Contrast,
    Volume,
    Sharpness,
    LightEnhancement,
    ColorEnhancement,
    OsdHPosition,
    OsdVPosition,
    PowerLed,
}

/// The switches.
#[derive(Debug, Clone, Copy, PartialEq, Eq, Structural)]
pub enum BooleanSetting {
    AdaptiveSync,
    LowInputLag,
    AudioMute,
    ResolutionNotice,
    UsbStandby,
    SmartPower,
    Cec,
    AutoWarning,
    Srgb,
}

/// The selections.
#[derive(Debug, Clone, Copy, PartialEq, Eq, Structural)]
pub enum ChoiceSetting {
    InputSource,
    SmartImage,
    ColorTemperature,
    Gamma,
    PixelOrbiting,
    ScreenSaver,
    Crosshair,
    SmartResponse,
    OsdTransparency,
    OsdTimeout,
    OsdLanguage,
    UsbCSetting,
    Kvm,
}

/// Any control that can be read back from the monitor.
#[derive(Debug, Clone, Copy, PartialEq, Eq, Structural)]
pub enum Setting {
    Range(RangeSetting),
    Boolean(BooleanSetting),
    Choice(ChoiceSetting),
}

/// Where the monitor keeps a control.
#[derive(Debug, Clone, Copy, PartialEq, Eq, Structural)]
pub enum Vcp {
    Standard(u8),
    Extended(u8),
}

/// Why a request was refused.
#[derive(Debug, Clone, Copy, PartialEq, Eq, Structural)]
pub enum ControlError {
    UnknownKey,
}

/// The frame that stores `value` at `v`.
pub open spec fn set_frame(v: Vcp, value: u8) -> Seq<u8> {
    match v {
        Vcp::Standard(c) => write_frame(c, value),
        Vcp::Extended(c) => extended_set_frame(c, value),
    }
}

/// The frame that asks for the value at `v`.
pub open spec fn get_frame(v: Vcp) -> Seq<u8> {
    match v {
        Vcp::Standard(c) => get_standard_frame(c),
        Vcp::Extended(c) => get_extended_frame(c),
    }
}

/// Builds the frame that stores `value` at `v`.
fn build_set(v: Vcp, value: u8) -> (r: Vec<u8>)
    ensures
        r@ == set_frame(v, value),
{
    match v {
        Vcp::Standard(c) => {
            let f = build_write(c, value);
            slice_to_vec(&f)
        },
        Vcp::Extended(c) => {
            let f = build_extended_set(c, value);
            slice_to_vec(&f)
        },
    }
}

/// Builds the frame that asks for the value at `v`.
fn build_get(v: Vcp) -> (r: Vec<u8>)
    ensures
        r@ == get_frame(v),
{
    match v {
        Vcp::Standard(c) => {
            let f = build_get_standard(c);
            slice_to_vec(&f)
        },
        Vcp::Extended(c) => {
            let f = build_get_extended(c);
            slice_to_vec(&f)
        },
    }
}

/// Where a slider is kept.
pub open spec fn range_vcp(s: RangeSetting) -> Vcp {
    match s {
        RangeSetting::Brightness => Vcp::Standard(0x10),
        RangeSetting::Contrast => Vcp::Standard(0x12),
        RangeSetting::Volume => Vcp::Standard(0x62),
        RangeSetting::Sharpness => Vcp::Standard(0x87),
        RangeSetting::LightEnhancement => Vcp::Extended(0x3D),
        RangeSetting::ColorEnhancement => Vcp::Extended(0x3E),
        RangeSetting::OsdHPosition => Vcp::Extended(0x0E),
        RangeSetting::OsdVPosition => Vcp::Extended(0x0F),
        RangeSetting::PowerLed => Vcp::Standard(0xF2),
    }
}

/// Where a slider is kept.
pub fn vcp_of_range(s: RangeSetting) -> (r: Vcp)
    ensures
        r == range_vcp(s),
{
    match s {
        RangeSetting::Brightness => Vcp::Standard(0x10),
        RangeSetting::Contrast => Vcp::Standard(0x12),
        RangeSetting::Volume => Vcp::Standard(0x62),
        RangeSetting::Sharpness => Vcp::Standard(0x87),
        RangeSetting::LightEnhancement => Vcp::Extended(0x3D),
        RangeSetting::ColorEnhancement => Vcp::Extended(0x3E),
        RangeSetting::OsdHPosition => Vcp::Extended(0x0E),
        RangeSetting::OsdVPosition => Vcp::Extended(0x0F),
        RangeSetting::PowerLed => Vcp::Standard(0xF2),
    }
}

/// Where a switch is kept.
pub open spec fn boolean_vcp(s: BooleanSetting) -> Vcp {
    match s {
        BooleanSetting::AdaptiveSync => Vcp::Extended(0x40),
        BooleanSetting::LowInputLag => Vcp::Extended(0x07),
        BooleanSetting::AudioMute => Vcp::Standard(0x8D),
        BooleanSetting::ResolutionNotice => Vcp::Standard(0xE9),
        BooleanSetting::UsbStandby => Vcp::Extended(0x13),
        BooleanSetting::SmartPower => Vcp::Extended(0x16),
        BooleanSetting::Cec => Vcp::Extended(0x17),
        BooleanSetting::AutoWarning => Vcp::Extended(0x43),
        BooleanSetting::Srgb => Vcp::Extended(0x20),
    }
}

/// Where a switch is kept.
pub fn vcp_of_boolean(s: BooleanSetting) -> (r: Vcp)
    ensures
        r == boolean_vcp(s),
{
    match s {
        BooleanSetting::AdaptiveSync => Vcp::Extended(0x40),
        BooleanSetting::LowInputLag => Vcp::Extended(0x07),
        BooleanSetting::AudioMute => Vcp::Standard(0x8D),
        BooleanSetting::ResolutionNotice => Vcp::Standard(0xE9),
        BooleanSetting::UsbStandby => Vcp::Extended(0x13),
        BooleanSetting::SmartPower => Vcp::Extended(0x16),
        BooleanSetting::Cec => Vcp::Extended(0x17),
        BooleanSetting::AutoWarning => Vcp::Extended(0x43),
        BooleanSetting::Srgb => Vcp::Extended(0x20),
    }
}

/// Where a selection is kept.
pub open spec fn choice_vcp(s: ChoiceSetting) -> Vcp {
    match s {
        ChoiceSetting::InputSource => Vcp::Standard(0x60),
        ChoiceSetting::SmartImage => Vcp::Standard(0xDC),
        ChoiceSetting::ColorTemperature => Vcp::Standard(0x14),
        ChoiceSetting::Gamma => Vcp::Standard(0x72),
        ChoiceSetting::PixelOrbiting => Vcp::Extended(0x34),
        ChoiceSetting::ScreenSaver => Vcp::Extended(0x35),
        ChoiceSetting::Crosshair => Vcp::Extended(0x04),
        ChoiceSetting::SmartResponse => Vcp::Standard(0xEB),
        ChoiceSetting::OsdTransparency => Vcp::Extended(0x10),
        ChoiceSetting::OsdTimeout => Vcp::Extended(0x11),
        ChoiceSetting::OsdLanguage => Vcp::Standard(0xCC),
        ChoiceSetting::UsbCSetting => Vcp::Extended(0x12),
        ChoiceSetting::Kvm => Vcp::Extended(0x15),
    }
}

/// Where a selection is kept.
pub fn vcp_of_choice(s: ChoiceSetting) -> (r: Vcp)
    ensures
        r == choice_vcp(s),
{
    match s {
        ChoiceSetting::InputSource => Vcp::Standard(0x60),
        ChoiceSetting::SmartImage => Vcp::Standard(0xDC),
        ChoiceSetting::ColorTemperature => Vcp::Standard(0x14),
        ChoiceSetting::Gamma => Vcp::Standard(0x72),
        ChoiceSetting::PixelOrbiting => Vcp::Extended(0x34),
        ChoiceSetting::ScreenSaver => Vcp::Extended(0x35),
        ChoiceSetting::Crosshair => Vcp::Extended(0x04),
        ChoiceSetting::SmartResponse => Vcp::Standard(0xEB),
        ChoiceSetting::OsdTransparency => Vcp::Extended(0x10),
        ChoiceSetting::OsdTimeout => Vcp::Extended(0x11),
        ChoiceSetting::OsdLanguage => Vcp::Standard(0xCC),
        ChoiceSetting::UsbCSetting => Vcp::Extended(0x12),
        ChoiceSetting::Kvm => Vcp::Extended(0x15),
    }
}

/// The highest value of a slider; the lowest is zero.
pub open spec fn range_max(s: RangeSetting) -> i32 {
    match s {
        RangeSetting::Brightness => 100,
        RangeSetting::Contrast => 100,
        RangeSetting::Volume => 100,
        RangeSetting::Sharpness => 100,
        RangeSetting::LightEnhancement => 3,
        RangeSetting::ColorEnhancement => 3,
        RangeSetting::OsdHPosition => 100,
        RangeSetting::OsdVPosition => 100,
        RangeSetting::PowerLed => 4,
    }
}

/// The highest value of a slider; the lowest is zero.
pub fn max_of_range(s: RangeSetting) -> (r: i32)
    ensures
        r == range_max(s),
{
    match s {
        RangeSetting::Brightness => 100,
        RangeSetting::Contrast => 100,
        RangeSetting::Volume => 100,
        RangeSetting::Sharpness => 100,
        RangeSetting::LightEnhancement => 3,
        RangeSetting::ColorEnhancement => 3,
        RangeSetting::OsdHPosition => 100,
        RangeSetting::OsdVPosition => 100,
        RangeSetting::PowerLed => 4,
    }
}

/// How many options a selection has.
pub open spec fn choice_count(s: ChoiceSetting) -> usize {
    match s {
        ChoiceSetting::InputSource => 4,
        ChoiceSetting::SmartImage => 17,
        ChoiceSetting::ColorTemperature => 8,
        ChoiceSetting::Gamma => 5,
        ChoiceSetting::PixelOrbiting => 4,
        ChoiceSetting::ScreenSaver => 3,
        ChoiceSetting::Crosshair => 3,
        ChoiceSetting::SmartResponse => 4,
        ChoiceSetting::OsdTransparency => 5,
        ChoiceSetting::OsdTimeout => 5,
        ChoiceSetting::OsdLanguage => 21,
        ChoiceSetting::UsbCSetting => 2,
        ChoiceSetting::Kvm => 3,
    }
}

/// How many options a selection has.
pub fn count_of_choice(s: ChoiceSetting) -> (r: usize)
    ensures
        r == choice_count(s),
{
    match s {
        ChoiceSetting::InputSource => 4,
        ChoiceSetting::SmartImage => 17,
        ChoiceSetting::ColorTemperature => 8,
        ChoiceSetting::Gamma => 5,
        ChoiceSetting::PixelOrbiting => 4,
        ChoiceSetting::ScreenSaver => 3,
        ChoiceSetting::Crosshair => 3,
        ChoiceSetting::SmartResponse => 4,
        ChoiceSetting::OsdTransparency => 5,
        ChoiceSetting::OsdTimeout => 5,
        ChoiceSetting::OsdLanguage => 21,
        ChoiceSetting::UsbCSetting => 2,
        ChoiceSetting::Kvm => 3,
    }
}

/// Where a control is kept.
pub open spec fn setting_vcp(s: Setting) -> Vcp {
    match s {
        Setting::Range(r) => range_vcp(r),
        Setting::Boolean(b) => boolean_vcp(b),
        Setting::Choice(c) => choice_vcp(c),
    }
}

/// The byte that stands for a switch position.
pub open spec fn boolean_code(s: BooleanSetting, on: bool) -> u8 {
    match s {
        BooleanSetting::AudioMute => if on { 1 } else { 2 },
        BooleanSetting::ResolutionNotice => if on { 2 } else { 0 },
        BooleanSetting::Srgb => if on { 2 } else { 0 },
        _ => if on { 1 } else { 0 },
    }
}

/// The byte that stands for a switch position.
fn code_of_boolean(s: BooleanSetting, on: bool) -> (r: u8)
    ensures
        r == boolean_code(s, on),
{
    match s {
        BooleanSetting::AudioMute => if on {
            1
        } else {
            2
        },
        BooleanSetting::ResolutionNotice => if on {
            2
        } else {
            0
        },
        BooleanSetting::Srgb => if on {
            2
        } else {
            0
        },
        _ => if on {
            1
        } else {
            0
        },
    }
}

/// The byte that stands for option `i` of a selection.
pub open spec fn choice_code(s: ChoiceSetting, i: int) -> u8 {
    match s {
        ChoiceSetting::InputSource => INPUT_PORTS@[i].0,
        ChoiceSetting::SmartImage => SMART_IMAGE_MODES@[i].0,
        ChoiceSetting::ColorTemperature => COLOR_TEMPERATURES@[i].0,
        ChoiceSetting::Gamma => GAMMA_VALUES@[i].0,
        ChoiceSetting::PixelOrbiting => PIXEL_ORBITING_OPTIONS@[i].0,
        ChoiceSetting::ScreenSaver => SCREEN_SAVER_OPTIONS@[i].0,
        ChoiceSetting::OsdLanguage => OSD_LANGUAGES@[i].0,
        _ => i as u8,
    }
}

/// The byte that stands for option `i` of a selection.
fn code_of_choice(s: ChoiceSetting, i: usize) -> (r: u8)
    requires
        i < choice_count(s),
    ensures
        r == choice_code(s, i as int),
{
    match s {
        ChoiceSetting::InputSource => INPUT_PORTS[i].0,
        ChoiceSetting::SmartImage => SMART_IMAGE_MODES[i].0,
        ChoiceSetting::ColorTemperature => COLOR_TEMPERATURES[i].0,
        ChoiceSetting::Gamma => GAMMA_VALUES[i].0,
        ChoiceSetting::PixelOrbiting => PIXEL_ORBITING_OPTIONS[i].0,
        ChoiceSetting::ScreenSaver => SCREEN_SAVER_OPTIONS[i].0,
        ChoiceSetting::OsdLanguage => OSD_LANGUAGES[i].0,
        _ => i as u8,
    }
}

/// The first position at or after `from` whose code is `code`, or zero.
pub open spec fn position_from(codes: Seq<u8>, code: u8, from: nat) -> nat
    decreases codes.len() - from,
{
    if from >= codes.len() {
        0
    } else if codes[from as int] == code {
        from
    } else {
        position_from(codes, code, from + 1)
    }
}

/// The codes of a table.
pub open spec fn table_codes(table: Seq<(u8, &'static str)>) -> Seq<u8> {
    Seq::new(table.len(), |i: int| table[i].0)
}

/// The labels of a table.
pub open spec fn table_labels(table: Seq<(u8, &'static str)>) -> Seq<&'static str> {
    Seq::new(table.len(), |i: int| table[i].1)
}

/// Position in `table` of the code in the low byte of `raw`; unknown codes give zero.
pub fn lookup_index(table: &[(u8, &'static str)], raw: u16) -> (r: usize)
    ensures
        r == position_from(table_codes(table@), (raw % 256) as u8, 0),
{
    let code: u8 = lo_byte(raw);
    let mut i: usize = 0;
    while i < table.len()
        invariant
            i <= table@.len(),
            code == raw % 256,
            position_from(table_codes(table@), code, i as nat) == position_from(
                table_codes(table@),
                code,
                0,
            ),
        decreases table@.len() - i,
    {
        if table[i].0 == code {
            return i;
        }
        i = i + 1;
    }
    0
}

/// The codes of the input ports.
pub open spec fn port_codes() -> Seq<u8> {
    Seq::new(4, |i: int| INPUT_PORTS@[i].0)
}

/// Position of the input port that VCP 0x60 reports in its low byte.
pub fn input_index_from_raw(raw: u16) -> (r: usize)
    ensures
        r == position_from(port_codes(), (raw % 256) as u8, 0),
{
    let code: u8 = lo_byte(raw);
    let mut i: usize = 0;
    while i < 4
        invariant
            i <= 4,
            code == raw % 256,
            position_from(port_codes(), code, i as nat) == position_from(port_codes(), code, 0),
        decreases 4 - i,
    {
        if INPUT_PORTS[i].0 == code {
            return i;
        }
        i = i + 1;
    }
    0
}

/// Position of the language that VCP 0xCC reports in its low byte.
pub fn language_index_from_raw(raw: u16) -> (r: usize)
    ensures
        r == position_from(table_codes(OSD_LANGUAGES@), (raw % 256) as u8, 0),
{
    lookup_index(&OSD_LANGUAGES, raw)
}

/// Whether a SmartImage position has HDR processing switched on: everything from
/// `HDR Game` to `HDR Personal`; `HDR Off` belongs to the HDR menu but turns it off.
pub fn smart_image_is_hdr_active(idx: usize) -> (r: bool)
    ensures
        r == hdr_active(idx),
{
    11 <= idx && idx <= 15
}

/// Whether a SmartImage position has HDR processing switched on.
pub open spec fn hdr_active(idx: usize) -> bool {
    11 <= idx <= 15
}

/// Options labelled by `table`, identified by their positions.
pub fn choices_from_table(table: &[(u8, &'static str)]) -> (r: Vec<ChoiceOption>)
    ensures
        options_are(r@, numerals(table@.len()), table_labels(table@)),
{
    let mut labels: Vec<&'static str> = Vec::new();
    let mut i: usize = 0;
    while i < table.len()
        invariant
            i <= table@.len(),
            labels@ == table_labels(table@).take(i as int),
        decreases table@.len() - i,
    {
        labels.push(table[i].1);
        proof {
            assert(labels@ =~= table_labels(table@).take(i + 1));
        }
        i = i + 1;
    }
    proof {
        assert(labels@ =~= table_labels(table@));
    }
    numbered_options(&labels)
}

/// A value limited to `0..=max`.
pub open spec fn limited(v: int, max: i32) -> i32 {
    if v < 0 {
        0
    } else if v > max {
        max
    } else {
        v as i32
    }
}

/// What a raw reading says about a switch.
pub open spec fn boolean_reading(s: BooleanSetting, raw: u16) -> bool {
    match s {
        BooleanSetting::AudioMute => raw == 1,
        _ => raw != 0,
    }
}

/// What a raw reading says about a selection.
pub open spec fn choice_reading(s: ChoiceSetting, raw: u16) -> usize {
    match s {
        ChoiceSetting::InputSource => position_from(port_codes(), (raw % 256) as u8, 0) as usize,
        ChoiceSetting::SmartImage => table_reading(SMART_IMAGE_MODES@, raw),
        ChoiceSetting::ColorTemperature => table_reading(COLOR_TEMPERATURES@, raw),
        ChoiceSetting::Gamma => table_reading(GAMMA_VALUES@, raw),
        ChoiceSetting::PixelOrbiting => table_reading(PIXEL_ORBITING_OPTIONS@, raw),
        ChoiceSetting::ScreenSaver => table_reading(SCREEN_SAVER_OPTIONS@, raw),
        ChoiceSetting::OsdLanguage => table_reading(OSD_LANGUAGES@, raw),
        _ => if raw < choice_count(s) {
            raw as usize
        } else {
            (choice_count(s) - 1) as usize
        },
    }
}

/// What a raw reading says about a selection kept as codes of `table`.
pub open spec fn table_reading(table: Seq<(u8, &'static str)>, raw: u16) -> usize {
    position_from(table_codes(table), (raw % 256) as u8, 0) as usize
}

/// What a raw reading says about a selection.
fn read_choice(s: ChoiceSetting, raw: u16) -> (r: usize)
    ensures
        r == choice_reading(s, raw),
{
    match s {
        ChoiceSetting::InputSource => input_index_from_raw(raw),
        ChoiceSetting::SmartImage => lookup_index(&SMART_IMAGE_MODES, raw),
        ChoiceSetting::ColorTemperature => lookup_index(&COLOR_TEMPERATURES, raw),
        ChoiceSetting::Gamma => lookup_index(&GAMMA_VALUES, raw),
        ChoiceSetting::PixelOrbiting => lookup_index(&PIXEL_ORBITING_OPTIONS, raw),
        ChoiceSetting::ScreenSaver => lookup_index(&SCREEN_SAVER_OPTIONS, raw),
        ChoiceSetting::OsdLanguage => language_index_from_raw(raw),
        _ => {
            let last: usize = count_of_choice(s) - 1;
            if (raw as usize) < last {
                raw as usize
            } else {
                last
            }
        },
    }
}

/// The control that a key names.
pub open spec fn range_named(key: Seq<char>) -> Option<RangeSetting> {
    if key == "brightness"@ {
        Some(RangeSetting::Brightness)
    } else if key == "contrast"@ {
        Some(RangeSetting::Contrast)
    } else if key == "volume"@ {
        Some(RangeSetting::Volume)
    } else if key == "sharpness"@ {
        Some(RangeSetting::Sharpness)
    } else if key == "light_enhancement"@ {
        Some(RangeSetting::LightEnhancement)
    } else if key == "color_enhancement"@ {
        Some(RangeSetting::ColorEnhancement)
    } else if key == "osd_h_position"@ {
        Some(RangeSetting::OsdHPosition)
    } else if key == "osd_v_position"@ {
        Some(RangeSetting::OsdVPosition)
    } else if key == "power_led"@ {
        Some(RangeSetting::PowerLed)
    } else {
        None
    }
}

/// The control that a key names.
fn range_by_key(key: &str) -> (r: Option<RangeSetting>)
    ensures
        r == range_named(key@),
{
    if same_text(key, "brightness") {
        Some(RangeSetting::Brightness)
    } else if same_text(key, "contrast") {
        Some(RangeSetting::Contrast)
    } else if same_text(key, "volume") {
        Some(RangeSetting::Volume)
    } else if same_text(key, "sharpness") {
        Some(RangeSetting::Sharpness)
    } else if same_text(key, "light_enhancement") {
        Some(RangeSetting::LightEnhancement)
    } else if same_text(key, "color_enhancement") {
        Some(RangeSetting::ColorEnhancement)
    } else if same_text(key, "osd_h_position") {
        Some(RangeSetting::OsdHPosition)
    } else if same_text(key, "osd_v_position") {
        Some(RangeSetting::OsdVPosition)
    } else if same_text(key, "power_led") {
        Some(RangeSetting::PowerLed)
    } else {
        None
    }
}

/// The control that a key names.
pub open spec fn boolean_named(key: Seq<char>) -> Option<BooleanSetting> {
    if key == "adaptive_sync"@ {
        Some(BooleanSetting::AdaptiveSync)
    } else if key == "low_input_lag"@ {
        Some(BooleanSetting::LowInputLag)
    } else if key == "audio_mute"@ {
        Some(BooleanSetting::AudioMute)
    } else if key == "resolution_notice"@ {
        Some(BooleanSetting::ResolutionNotice)
    } else if key == "usb_standby"@ {
        Some(BooleanSetting::UsbStandby)
    } else if key == "smart_power"@ {
        Some(BooleanSetting::SmartPower)
    } else if key == "cec"@ {
        Some(BooleanSetting::Cec)
    } else if key == "auto_warning"@ {
        Some(BooleanSetting::AutoWarning)
    } else if key == "srgb"@ {
        Some(BooleanSetting::Srgb)
    } else {
        None
    }
}

/// The control that a key names.
fn boolean_by_key(key: &str) -> (r: Option<BooleanSetting>)
    ensures
        r == boolean_named(key@),
{
    if same_text(key, "adaptive_sync") {
        Some(BooleanSetting::AdaptiveSync)
    } else if same_text(key, "low_input_lag") {
        Some(BooleanSetting::LowInputLag)
    } else if same_text(key, "audio_mute") {
        Some(BooleanSetting::AudioMute)
    } else if same_text(key, "resolution_notice") {
        Some(BooleanSetting::ResolutionNotice)
    } else if same_text(key, "usb_standby") {
        Some(BooleanSetting::UsbStandby)
    } else if same_text(key, "smart_power") {
        Some(BooleanSetting::SmartPower)
    } else if same_text(key, "cec") {
        Some(BooleanSetting::Cec)
    } else if same_text(key, "auto_warning") {
        Some(BooleanSetting::AutoWarning)
    } else if same_text(key, "srgb") {
        Some(BooleanSetting::Srgb)
    } else {
        None
    }
}

/// The control that a key names.
pub open spec fn choice_named(key: Seq<char>) -> Option<ChoiceSetting> {
    if key == "input_source"@ {
        Some(ChoiceSetting::InputSource)
    } else if key == "smart_image"@ {
        Some(ChoiceSetting::SmartImage)
    } else if key == "color_temperature"@ {
        Some(ChoiceSetting::ColorTemperature)
    } else if key == "gamma"@ {
        Some(ChoiceSetting::Gamma)
    } else if key == "pixel_orbiting"@ {
        Some(ChoiceSetting::PixelOrbiting)
    } else if key == "screen_saver"@ {
        Some(ChoiceSetting::ScreenSaver)
    } else if key == "crosshair"@ {
        Some(ChoiceSetting::Crosshair)
    } else if key == "smart_response"@ {
        Some(ChoiceSetting::SmartResponse)
    } else if key == "osd_transparency"@ {
        Some(ChoiceSetting::OsdTransparency)
    } else if key == "osd_timeout"@ {
        Some(ChoiceSetting::OsdTimeout)
    } else if key == "osd_language"@ {
        Some(ChoiceSetting::OsdLanguage)
    } else if key == "usb_c_setting"@ {
        Some(ChoiceSetting::UsbCSetting)
    } else if key == "kvm"@ {
        Some(ChoiceSetting::Kvm)
    } else {
        None
    }
}

/// The control that a key names.
fn choice_by_key(key: &str) -> (r: Option<ChoiceSetting>)
    ensures
        r == choice_named(key@),
{
    if same_text(key, "input_source") {
        Some(ChoiceSetting::InputSource)
    } else if same_text(key, "smart_image") {
        Some(ChoiceSetting::SmartImage)
    } else if same_text(key, "color_temperature") {
        Some(ChoiceSetting::ColorTemperature)
    } else if same_text(key, "gamma") {
        Some(ChoiceSetting::Gamma)
    } else if same_text(key, "pixel_orbiting") {
        Some(ChoiceSetting::PixelOrbiting)
    } else if same_text(key, "screen_saver") {
        Some(ChoiceSetting::ScreenSaver)
    } else if same_text(key, "crosshair") {
        Some(ChoiceSetting::Crosshair)
    } else if same_text(key, "smart_response") {
        Some(ChoiceSetting::SmartResponse)
    } else if same_text(key, "osd_transparency") {
        Some(ChoiceSetting::OsdTransparency)
    } else if same_text(key, "osd_timeout") {
        Some(ChoiceSetting::OsdTimeout)
    } else if same_text(key, "osd_language") {
        Some(ChoiceSetting::OsdLanguage)
    } else if same_text(key, "usb_c_setting") {
        Some(ChoiceSetting::UsbCSetting)
    } else if same_text(key, "kvm") {
        Some(ChoiceSetting::Kvm)
    } else {
        None
    }
}

/// Device-info strings, read once when the monitor is opened.
#[derive(Debug)]
pub struct DeviceInfo {
    pub model: Option<String>,
    pub firmware: Option<String>,
    pub panel_variant: Option<String>,
    pub panel_id: Option<String>,
    pub serial: Option<String>,
}

/// The monitor as last read or set.
#[derive(Debug)]
pub struct PhilipsEvnia49 {
    pub id: String,
    pub protocol: PhilipsEvnia49Protocol,
    pub info: DeviceInfo,
    pub brightness: i32,
    pub contrast: i32,
    pub volume: i32,
    pub sharpness: i32,
    pub light_enhancement: i32,
    pub color_enhancement: i32,
    pub osd_h_position: i32,
    pub osd_v_position: i32,
    pub power_led: i32,
    pub adaptive_sync: bool,
    pub low_input_lag: bool,
    pub audio_mute: bool,
    pub resolution_notice: bool,
    pub usb_standby: bool,
    pub smart_power: bool,
    pub cec: bool,
    pub auto_warning: bool,
    pub srgb: bool,
    pub input_source: usize,
    pub smart_image: usize,
    pub color_temperature: usize,
    pub gamma: usize,
    pub pixel_orbiting: usize,
    pub screen_saver: usize,
    pub crosshair: usize,
    pub smart_response: usize,
    pub osd_transparency: usize,
    pub osd_timeout: usize,
    pub osd_language: usize,
    pub usb_c_setting: usize,
    pub kvm: usize,
}

/// A frame to send, and what to remember once it went out.
#[derive(Debug)]
pub struct RangeChange {
    pub frame: Vec<u8>,
    pub setting: RangeSetting,
    pub value: i32,
}

/// A frame to send, and what to remember once it went out.
#[derive(Debug)]
pub struct BooleanChange {
    pub frame: Vec<u8>,
    pub setting: BooleanSetting,
    pub value: bool,
}

/// A frame to send, and what to remember once it went out.
#[derive(Debug)]
pub struct ChoiceChange {
    pub frame: Vec<u8>,
    pub setting: ChoiceSetting,
    pub selected: usize,
}

/// The controls in the order in which they are read back.
pub open spec fn refresh_order() -> Seq<Setting> {
    seq![
        Setting::Range(RangeSetting::Brightness),
        Setting::Range(RangeSetting::Contrast),
        Setting::Range(RangeSetting::Volume),
        Setting::Range(RangeSetting::PowerLed),
        Setting::Boolean(BooleanSetting::AudioMute),
        Setting::Boolean(BooleanSetting::ResolutionNotice),
        Setting::Choice(ChoiceSetting::SmartResponse),
        Setting::Choice(ChoiceSetting::InputSource),
        Setting::Choice(ChoiceSetting::OsdLanguage),
        Setting::Choice(ChoiceSetting::Crosshair),
        Setting::Boolean(BooleanSetting::LowInputLag),
        Setting::Range(RangeSetting::OsdHPosition),
        Setting::Range(RangeSetting::OsdVPosition),
        Setting::Choice(ChoiceSetting::OsdTransparency),
        Setting::Choice(ChoiceSetting::OsdTimeout),
        Setting::Choice(ChoiceSetting::UsbCSetting),
        Setting::Boolean(BooleanSetting::UsbStandby),
        Setting::Choice(ChoiceSetting::Kvm),
        Setting::Boolean(BooleanSetting::SmartPower),
        Setting::Boolean(BooleanSetting::Cec),
        Setting::Choice(ChoiceSetting::SmartImage),
        Setting::Range(RangeSetting::Sharpness),
        Setting::Choice(ChoiceSetting::Gamma),
        Setting::Choice(ChoiceSetting::ColorTemperature),
        Setting::Boolean(BooleanSetting::Srgb),
        Setting::Choice(ChoiceSetting::PixelOrbiting),
        Setting::Choice(ChoiceSetting::ScreenSaver),
        Setting::Boolean(BooleanSetting::AutoWarning),
        Setting::Range(RangeSetting::LightEnhancement),
        Setting::Range(RangeSetting::ColorEnhancement),
        Setting::Boolean(BooleanSetting::AdaptiveSync),
    ]
}

/// The controls in the order in which they are read back.
pub fn refresh_settings() -> (r: Vec<Setting>)
    ensures
        r@ == refresh_order(),
{
    vec![
        Setting::Range(RangeSetting::Brightness),
        Setting::Range(RangeSetting::Contrast),
        Setting::Range(RangeSetting::Volume),
        Setting::Range(RangeSetting::PowerLed),
        Setting::Boolean(BooleanSetting::AudioMute),
        Setting::Boolean(BooleanSetting::ResolutionNotice),
        Setting::Choice(ChoiceSetting::SmartResponse),
        Setting::Choice(ChoiceSetting::InputSource),
        Setting::Choice(ChoiceSetting::OsdLanguage),
        Setting::Choice(ChoiceSetting::Crosshair),
        Setting::Boolean(BooleanSetting::LowInputLag),
        Setting::Range(RangeSetting::OsdHPosition),
        Setting::Range(RangeSetting::OsdVPosition),
        Setting::Choice(ChoiceSetting::OsdTransparency),
        Setting::Choice(ChoiceSetting::OsdTimeout),
        Setting::Choice(ChoiceSetting::UsbCSetting),
        Setting::Boolean(BooleanSetting::UsbStandby),
        Setting::Choice(ChoiceSetting::Kvm),
        Setting::Boolean(BooleanSetting::SmartPower),
        Setting::Boolean(BooleanSetting::Cec),
        Setting::Choice(ChoiceSetting::SmartImage),
        Setting::Range(RangeSetting::Sharpness),
        Setting::Choice(ChoiceSetting::Gamma),
        Setting::Choice(ChoiceSetting::ColorTemperature),
        Setting::Boolean(BooleanSetting::Srgb),
        Setting::Choice(ChoiceSetting::PixelOrbiting),
        Setting::Choice(ChoiceSetting::ScreenSaver),
        Setting::Boolean(BooleanSetting::AutoWarning),
        Setting::Range(RangeSetting::LightEnhancement),
        Setting::Range(RangeSetting::ColorEnhancement),
        Setting::Boolean(BooleanSetting::AdaptiveSync),
    ]
}

impl PhilipsEvnia49 {
    /// The remembered value of a control.
    pub open spec fn range_value(self, s: RangeSetting) -> i32 {
        match s {
            RangeSetting::Brightness => self.brightness,
            RangeSetting::Contrast => self.contrast,
            RangeSetting::Volume => self.volume,
            RangeSetting::Sharpness => self.sharpness,
            RangeSetting::LightEnhancement => self.light_enhancement,
            RangeSetting::ColorEnhancement => self.color_enhancement,
            RangeSetting::OsdHPosition => self.osd_h_position,
            RangeSetting::OsdVPosition => self.osd_v_position,
            RangeSetting::PowerLed => self.power_led,
        }
    }

    /// The monitor with one control changed.
    pub open spec fn with_range(self, s: RangeSetting, v: i32) -> Self {
        match s {
            RangeSetting::Brightness => PhilipsEvnia49 { brightness: v, ..self },
            RangeSetting::Contrast => PhilipsEvnia49 { contrast: v, ..self },
            RangeSetting::Volume => PhilipsEvnia49 { volume: v, ..self },
            RangeSetting::Sharpness => PhilipsEvnia49 { sharpness: v, ..self },
            RangeSetting::LightEnhancement => PhilipsEvnia49 { light_enhancement: v, ..self },
            RangeSetting::ColorEnhancement => PhilipsEvnia49 { color_enhancement: v, ..self },
            RangeSetting::OsdHPosition => PhilipsEvnia49 { osd_h_position: v, ..self },
            RangeSetting::OsdVPosition => PhilipsEvnia49 { osd_v_position: v, ..self },
            RangeSetting::PowerLed => PhilipsEvnia49 { power_led: v, ..self },
        }
    }

    /// Remembers the value of a control.
    fn store_range(&mut self, s: RangeSetting, v: i32)
        ensures
            *final(self) == old(self).with_range(s, v),
    {
        match s {
            RangeSetting::Brightness => {
                self.brightness = v;
            },
            RangeSetting::Contrast => {
                self.contrast = v;
            },
            RangeSetting::Volume => {
                self.volume = v;
            },
            RangeSetting::Sharpness => {
                self.sharpness = v;
            },
            RangeSetting::LightEnhancement => {
                self.light_enhancement = v;
            },
            RangeSetting::ColorEnhancement => {
                self.color_enhancement = v;
            },
            RangeSetting::OsdHPosition => {
                self.osd_h_position = v;
            },
            RangeSetting::OsdVPosition => {
                self.osd_v_position = v;
            },
            RangeSetting::PowerLed => {
                self.power_led = v;
            },
        }
    }

    /// The remembered value of a control.
    pub open spec fn boolean_value(self, s: BooleanSetting) -> bool {
        match s {
            BooleanSetting::AdaptiveSync => self.adaptive_sync,
            BooleanSetting::LowInputLag => self.low_input_lag,
            BooleanSetting::AudioMute => self.audio_mute,
            BooleanSetting::ResolutionNotice => self.resolution_notice,
            BooleanSetting::UsbStandby => self.usb_standby,
            BooleanSetting::SmartPower => self.smart_power,
            BooleanSetting::Cec => self.cec,
            BooleanSetting::AutoWarning => self.auto_warning,
            BooleanSetting::Srgb => self.srgb,
        }
    }

    /// The monitor with one control changed.
    pub open spec fn with_boolean(self, s: BooleanSetting, v: bool) -> Self {
        match s {
            BooleanSetting::AdaptiveSync => PhilipsEvnia49 { adaptive_sync: v, ..self },
            BooleanSetting::LowInputLag => PhilipsEvnia49 { low_input_lag: v, ..self },
            BooleanSetting::AudioMute => PhilipsEvnia49 { audio_mute: v, ..self },
            BooleanSetting::ResolutionNotice => PhilipsEvnia49 { resolution_notice: v, ..self },
            BooleanSetting::UsbStandby => PhilipsEvnia49 { usb_standby: v, ..self },
            BooleanSetting::SmartPower => PhilipsEvnia49 { smart_power: v, ..self },
            BooleanSetting::Cec => PhilipsEvnia49 { cec: v, ..self },
            BooleanSetting::AutoWarning => PhilipsEvnia49 { auto_warning: v, ..self },
            BooleanSetting::Srgb => PhilipsEvnia49 { srgb: v, ..self },
        }
    }

    /// Remembers the value of a control.
    fn store_boolean(&mut self, s: BooleanSetting, v: bool)
        ensures
            *final(self) == old(self).with_boolean(s, v),
    {
        match s {
            BooleanSetting::AdaptiveSync => {
                self.adaptive_sync = v;
            },
            BooleanSetting::LowInputLag => {
                self.low_input_lag = v;
            },
            BooleanSetting::AudioMute => {
                self.audio_mute = v;
            },
            BooleanSetting::ResolutionNotice => {
                self.resolution_notice = v;
            },
            BooleanSetting::UsbStandby => {
                self.usb_standby = v;
            },
            BooleanSetting::SmartPower => {
                self.smart_power = v;
            },
            BooleanSetting::Cec => {
                self.cec = v;
            },
            BooleanSetting::AutoWarning => {
                self.auto_warning = v;
            },
            BooleanSetting::Srgb => {
                self.srgb = v;
            },
        }
    }

    /// The remembered value of a control.
    pub open spec fn choice_value(self, s: ChoiceSetting) -> usize {
        match s {
            ChoiceSetting::InputSource => self.input_source,
            ChoiceSetting::SmartImage => self.smart_image,
            ChoiceSetting::ColorTemperature => self.color_temperature,
            ChoiceSetting::Gamma => self.gamma,
            ChoiceSetting::PixelOrbiting => self.pixel_orbiting,
            ChoiceSetting::ScreenSaver => self.screen_saver,
            ChoiceSetting::Crosshair => self.crosshair,
            ChoiceSetting::SmartResponse => self.smart_response,
            ChoiceSetting::OsdTransparency => self.osd_transparency,
            ChoiceSetting::OsdTimeout => self.osd_timeout,
            ChoiceSetting::OsdLanguage => self.osd_language,
            ChoiceSetting::UsbCSetting => self.usb_c_setting,
            ChoiceSetting::Kvm => self.kvm,
        }
    }

    /// The monitor with one control changed.
    pub open spec fn with_choice(self, s: ChoiceSetting, v: usize) -> Self {
        match s {
            ChoiceSetting::InputSource => PhilipsEvnia49 { input_source: v, ..self },
            ChoiceSetting::SmartImage => PhilipsEvnia49 { smart_image: v, ..self },
            ChoiceSetting::ColorTemperature => PhilipsEvnia49 { color_temperature: v, ..self },
            ChoiceSetting::Gamma => PhilipsEvnia49 { gamma: v, ..self },
            ChoiceSetting::PixelOrbiting => PhilipsEvnia49 { pixel_orbiting: v, ..self },
            ChoiceSetting::ScreenSaver => PhilipsEvnia49 { screen_saver: v, ..self },
            ChoiceSetting::Crosshair => PhilipsEvnia49 { crosshair: v, ..self },
            ChoiceSetting::SmartResponse => PhilipsEvnia49 { smart_response: v, ..self },
            ChoiceSetting::OsdTransparency => PhilipsEvnia49 { osd_transparency: v, ..self },
            ChoiceSetting::OsdTimeout => PhilipsEvnia49 { osd_timeout: v, ..self },
            ChoiceSetting::OsdLanguage => PhilipsEvnia49 { osd_language: v, ..self },
            ChoiceSetting::UsbCSetting => PhilipsEvnia49 { usb_c_setting: v, ..self },
            ChoiceSetting::Kvm => PhilipsEvnia49 { kvm: v, ..self },
        }
    }

    /// Remembers the value of a control.
    fn store_choice(&mut self, s: ChoiceSetting, v: usize)
        ensures
            *final(self) == old(self).with_choice(s, v),
    {
        match s {
            ChoiceSetting::InputSource => {
                self.input_source = v;
            },
            ChoiceSetting::SmartImage => {
                self.smart_image = v;
            },
            ChoiceSetting::ColorTemperature => {
                self.color_temperature = v;
            },
            ChoiceSetting::Gamma => {
                self.gamma = v;
            },
            ChoiceSetting::PixelOrbiting => {
                self.pixel_orbiting = v;
            },
            ChoiceSetting::ScreenSaver => {
                self.screen_saver = v;
            },
            ChoiceSetting::Crosshair => {
                self.crosshair = v;
            },
            ChoiceSetting::SmartResponse => {
                self.smart_response = v;
            },
            ChoiceSetting::OsdTransparency => {
                self.osd_transparency = v;
            },
            ChoiceSetting::OsdTimeout => {
                self.osd_timeout = v;
            },
            ChoiceSetting::OsdLanguage => {
                self.osd_language = v;
            },
            ChoiceSetting::UsbCSetting => {
                self.usb_c_setting = v;
            },
            ChoiceSetting::Kvm => {
                self.kvm = v;
            },
        }
    }

    /// Every remembered value lies within its control.
    pub open spec fn wf(self) -> bool {
        &&& forall|s: RangeSetting| 0 <= #[trigger] self.range_value(s) <= range_max(s)
        &&& forall|s: ChoiceSetting| #[trigger] self.choice_value(s) < choice_count(s)
    }

    /// The monitor after one raw reading.
    pub open spec fn with_reading(self, s: Setting, raw: u16) -> Self {
        match s {
            Setting::Range(r) => self.with_range(r, limited(raw as int, range_max(r))),
            Setting::Boolean(b) => self.with_boolean(b, boolean_reading(b, raw)),
            Setting::Choice(c) => self.with_choice(c, choice_reading(c, raw)),
        }
    }

    /// The monitor after the first `n` readings of a refresh; a reading that failed
    /// changes nothing.
    pub open spec fn refreshed(self, readings: Seq<Option<u16>>, n: nat) -> Self
        decreases n,
    {
        if n == 0 {
            self
        } else {
            let before = self.refreshed(readings, (n - 1) as nat);
            if n <= readings.len() && readings[n - 1] is Some {
                before.with_reading(refresh_order()[n - 1], readings[n - 1]->Some_0)
            } else {
                before
            }
        }
    }

    /// The monitor with its factory assumptions, not yet connected.
    pub fn new() -> (r: Self)
        ensures
            r.id@ == "philips_evnia_49_"@ + hex(MCCS_VID as nat, 4) + "_"@ + hex(MCCS_PID as nat, 4),
            !r.protocol.connected,
            r.protocol.last_write_ms is None,
            r.info.model is None,
            r.info.firmware is None,
            r.info.panel_variant is None,
            r.info.panel_id is None,
            r.info.serial is None,
            r.brightness == 50,
            r.contrast == 50,
            r.volume == 0,
            r.sharpness == 50,
            r.light_enhancement == 0,
            r.color_enhancement == 0,
            r.osd_h_position == 50,
            r.osd_v_position == 50,
            r.power_led == 2,
            !r.adaptive_sync,
            !r.low_input_lag,
            !r.audio_mute,
            !r.resolution_notice,
            !r.usb_standby,
            !r.smart_power,
            !r.cec,
            !r.auto_warning,
            !r.srgb,
            r.input_source == 0,
            r.smart_image == 0,
            r.color_temperature == 0,
            r.gamma == 2,
            r.pixel_orbiting == 0,
            r.screen_saver == 0,
            r.crosshair == 0,
            r.smart_response == 0,
            r.osd_transparency == 0,
            r.osd_timeout == 0,
            r.osd_language == 1,
            r.usb_c_setting == 0,
            r.kvm == 0,
            r.wf(),
    {
        let mut id = owned("philips_evnia_49_");
        push_hex(&mut id, MCCS_VID as u64, 4);
        id.append("_");
        push_hex(&mut id, MCCS_PID as u64, 4);
        PhilipsEvnia49 {
            id,
            protocol: PhilipsEvnia49Protocol::new(),
            info: DeviceInfo {
                model: None,
                firmware: None,
                panel_variant: None,
                panel_id: None,
                serial: None,
            },
            brightness: 50,
            contrast: 50,
            volume: 0,
            sharpness: 50,
            light_enhancement: 0,
            color_enhancement: 0,
            osd_h_position: 50,
            osd_v_position: 50,
            power_led: 2,
            adaptive_sync: false,
            low_input_lag: false,
            audio_mute: false,
            resolution_notice: false,
            usb_standby: false,
            smart_power: false,
            cec: false,
            auto_warning: false,
            srgb: false,
            input_source: 0,
            smart_image: 0,
            color_temperature: 0,
            gamma: 2,
            pixel_orbiting: 0,
            screen_saver: 0,
            crosshair: 0,
            smart_response: 0,
            osd_transparency: 0,
            osd_timeout: 0,
            osd_language: 1,
            usb_c_setting: 0,
            kvm: 0,
        }
    }

    /// The frame that asks for a control.
    pub fn read_request(s: Setting) -> (frame: Vec<u8>)
        ensures
            frame@ == get_frame(setting_vcp(s)),
    {
        match s {
            Setting::Range(r) => build_get(vcp_of_range(r)),
            Setting::Boolean(b) => build_get(vcp_of_boolean(b)),
            Setting::Choice(c) => build_get(vcp_of_choice(c)),
        }
    }

    /// Takes over one raw reading.
    pub fn apply_reading(&mut self, s: Setting, raw: u16)
        ensures
            *final(self) == old(self).with_reading(s, raw),
            old(self).wf() ==> final(self).wf(),
    {
        match s {
            Setting::Range(r) => {
                let max: i32 = max_of_range(r);
                let v: i32 = if (raw as i32) > max {
                    max
                } else {
                    raw as i32
                };
                self.store_range(r, v);
            },
            Setting::Boolean(b) => {
                let on = match b {
                    BooleanSetting::AudioMute => raw == 1,
                    _ => raw != 0,
                };
                self.store_boolean(b, on);
            },
            Setting::Choice(c) => {
                let i: usize = read_choice(c, raw);
                self.store_choice(c, i);
            },
        }
        proof {
            if old(self).wf() {
                lemma_reading_keeps_wf(*old(self), s, raw);
            }
        }
    }

    /// Takes over what a full read-back gave, one entry per control in refresh order.
    /// A control whose read failed keeps its value: partial state is better than none.
    pub fn refresh_from_monitor(&mut self, readings: &[Option<u16>])
        ensures
            *final(self) == old(self).refreshed(readings@, refresh_order().len()),
            old(self).wf() ==> final(self).wf(),
    {
        let order = refresh_settings();
        let mut i: usize = 0;
        while i < order.len()
            invariant
                i <= order@.len(),
                order@ == refresh_order(),
                *self == old(self).refreshed(readings@, i as nat),
                old(self).wf() ==> self.wf(),
            decreases order@.len() - i,
        {
            if i < readings.len() {
                if let Some(raw) = readings[i] {
                    self.apply_reading(order[i], raw);
                }
            }
            i = i + 1;
        }
    }

    /// The frame that moves a slider, and the value to remember for it.
    pub fn set_range(&self, key: &str, value: i32) -> (r: Result<RangeChange, ControlError>)
        ensures
            match range_named(key@) {
                Some(s) => {
                    &&& r is Ok
                    &&& r->Ok_0.setting == s
                    &&& r->Ok_0.value == limited(value as int, range_max(s))
                    &&& r->Ok_0.frame@ == set_frame(range_vcp(s), r->Ok_0.value as u8)
                },
                None => r == Err::<RangeChange, ControlError>(ControlError::UnknownKey),
            },
    {
        match range_by_key(key) {
            Some(s) => {
                let max: i32 = max_of_range(s);
                let v: i32 = if value < 0 {
                    0
                } else if value > max {
                    max
                } else {
                    value
                };
                let frame = build_set(vcp_of_range(s), v as u8);
                Ok(RangeChange { frame, setting: s, value: v })
            },
            None => Err(ControlError::UnknownKey),
        }
    }

    /// Remembers a slider whose frame went out.
    pub fn range_written(&mut self, change: &RangeChange)
        ensures
            *final(self) == old(self).with_range(change.setting, change.value),
    {
        self.store_range(change.setting, change.value);
    }

    /// The frame that picks an option, and the position to remember. Positions past the
    /// end pick the last option.
    pub fn set_choice(&self, key: &str, selected: usize) -> (r: Result<ChoiceChange, ControlError>)
        ensures
            match choice_named(key@) {
                Some(s) => {
                    &&& r is Ok
                    &&& r->Ok_0.setting == s
                    &&& r->Ok_0.selected == if selected < choice_count(s) {
                        selected as int
                    } else {
                        choice_count(s) - 1
                    }
                    &&& r->Ok_0.frame@ == set_frame(
                        choice_vcp(s),
                        choice_code(s, r->Ok_0.selected as int),
                    )
                },
                None => r == Err::<ChoiceChange, ControlError>(ControlError::UnknownKey),
            },
    {
        match choice_by_key(key) {
            Some(s) => {
                let last: usize = count_of_choice(s) - 1;
                let i: usize = if selected < last {
                    selected
                } else {
                    last
                };
                let frame = build_set(vcp_of_choice(s), code_of_choice(s, i));
                Ok(ChoiceChange { frame, setting: s, selected: i })
            },
            None => Err(ControlError::UnknownKey),
        }
    }

    /// Remembers a selection whose frame went out.
    pub fn choice_written(&mut self, change: &ChoiceChange)
        ensures
            *final(self) == old(self).with_choice(change.setting, change.selected),
    {
        self.store_choice(change.setting, change.selected);
    }

    /// The frame that flips a switch, and the position to remember.
    pub fn set_boolean(&self, key: &str, value: bool) -> (r: Result<BooleanChange, ControlError>)
        ensures
            match boolean_named(key@) {
                Some(s) => {
                    &&& r is Ok
                    &&& r->Ok_0.setting == s
                    &&& r->Ok_0.value == value
                    &&& r->Ok_0.frame@ == set_frame(boolean_vcp(s), boolean_code(s, value))
                },
                None => r == Err::<BooleanChange, ControlError>(ControlError::UnknownKey),
            },
    {
        match boolean_by_key(key) {
            Some(s) => {
                let frame = build_set(vcp_of_boolean(s), code_of_boolean(s, value));
                Ok(BooleanChange { frame, setting: s, value })
            },
            None => Err(ControlError::UnknownKey),
        }
    }

    /// Remembers a switch whose frame went out.
    pub fn boolean_written(&mut self, change: &BooleanChange)
        ensures
            *final(self) == old(self).with_boolean(change.setting, change.value),
    {
        self.store_boolean(change.setting, change.value);
    }

    /// The frame that a button sends.
    pub fn trigger_action(&self, key: &str) -> (r: Result<Vec<u8>, ControlError>)
        ensures
            if key@ == "pixel_refresh"@ {
                r is Ok && r->Ok_0@ == extended_set_frame(0x36, 0x01)
            } else {
                r == Err::<Vec<u8>, ControlError>(ControlError::UnknownKey)
            },
    {
        if same_text(key, "pixel_refresh") {
            Ok(build_set(Vcp::Extended(0x36), 0x01))
        } else {
            Err(ControlError::UnknownKey)
        }
    }

    /// The addresses of the device-info strings: model, firmware, panel variant, panel
    /// id and serial number.
    pub fn info_addresses() -> (r: [[u8; 4]; 5])
        ensures
            r@[0]@ == seq![0xE9u8, 0x0D, 0x00, 0x00],
            r@[1]@ == seq![0xE1u8, 0xE6, 0x06, 0x00],
            r@[2]@ == seq![0xE1u8, 0xE6, 0x1D, 0x00],
            r@[3]@ == seq![0xE1u8, 0xE8, 0x00, 0x00],
            r@[4]@ == seq![0xEFu8, 0x13, 0x00, 0x20],
    {
        let r: [[u8; 4]; 5] = [
            [0xE9, 0x0D, 0x00, 0x00],
            [0xE1, 0xE6, 0x06, 0x00],
            [0xE1, 0xE6, 0x1D, 0x00],
            [0xE1, 0xE8, 0x00, 0x00],
            [0xEF, 0x13, 0x00, 0x20],
        ];
        proof {
            assert(r@[0]@ =~= seq![0xE9u8, 0x0D, 0x00, 0x00]);
            assert(r@[1]@ =~= seq![0xE1u8, 0xE6, 0x06, 0x00]);
            assert(r@[2]@ =~= seq![0xE1u8, 0xE6, 0x1D, 0x00]);
            assert(r@[3]@ =~= seq![0xE1u8, 0xE8, 0x00, 0x00]);
            assert(r@[4]@ =~= seq![0xEFu8, 0x13, 0x00, 0x20]);
        }
        r
    }

    /// Takes over the device-info strings as they were read. Strings that could not be
    /// read, and empty ones, are forgotten.
    pub fn read_device_info(&mut self, read: DeviceInfo)
        ensures
            final(self).info.model == non_empty(read.model),
            final(self).info.firmware == non_empty(read.firmware),
            final(self).info.panel_variant == non_empty(read.panel_variant),
            final(self).info.panel_id == non_empty(read.panel_id),
            final(self).info.serial == non_empty(read.serial),
            *final(self) == (PhilipsEvnia49 { info: final(self).info, ..*old(self) }),
    {
        self.info = DeviceInfo {
            model: keep_non_empty(read.model),
            firmware: keep_non_empty(read.firmware),
            panel_variant: keep_non_empty(read.panel_variant),
            panel_id: keep_non_empty(read.panel_id),
            serial: keep_non_empty(read.serial),
        };
    }

    /// The serial number, if the monitor gave one.
    pub fn hardware_serial(&self) -> (r: Option<String>)
        ensures
            same_option(r, self.info.serial),
    {
        copy_option(&self.info.serial)
    }

    /// The device-info strings that are known, under their names.
    pub open spec fn info_lines(self) -> Seq<(&'static str, Seq<char>)> {
        info_line("model_number", self.info.model) + info_line(
            "firmware_version",
            self.info.firmware,
        ) + info_line("panel_variant", self.info.panel_variant) + info_line(
            "panel_id",
            self.info.panel_id,
        ) + info_line("serial_number", self.info.serial)
    }

    /// The device-info strings that are known, under their names.
    pub fn debug_info_extra(&self) -> (r: Vec<(&'static str, String)>)
        ensures
            lines_view(r@) == self.info_lines(),
    {
        let mut out: Vec<(&'static str, String)> = Vec::new();
        proof {
            assert(lines_view(out@) =~= Seq::empty());
        }
        push_info(&mut out, "model_number", &self.info.model);
        push_info(&mut out, "firmware_version", &self.info.firmware);
        push_info(&mut out, "panel_variant", &self.info.panel_variant);
        push_info(&mut out, "panel_id", &self.info.panel_id);
        push_info(&mut out, "serial_number", &self.info.serial);
        proof {
            assert(lines_view(out@) =~= self.info_lines());
        }
        out
    }

    /// The input ports as options.
    pub fn input_choice_options() -> (r: Vec<ChoiceOption>)
        ensures
            options_are(r@, port_ids(), port_labels()),
    {
        let mut out: Vec<ChoiceOption> = Vec::new();
        let mut i: usize = 0;
        while i < 4
            invariant
                i <= 4,
                out@.len() == i,
                forall|k: int|
                    #![trigger out@[k]]
                    0 <= k < i ==> out@[k].id@ == port_ids()[k] && out@[k].label
                        == port_labels()[k],
            decreases 4 - i,
        {
            out.push(ChoiceOption { id: owned(INPUT_PORTS[i].1), label: INPUT_PORTS[i].2 });
            i = i + 1;
        }
        out
    }

    /// The on-screen languages as options, identified by their codes in hexadecimal.
    pub fn language_choice_options() -> (r: Vec<ChoiceOption>)
        ensures
            options_are(r@, language_ids(), table_labels(OSD_LANGUAGES@)),
    {
        let mut out: Vec<ChoiceOption> = Vec::new();
        let mut i: usize = 0;
        while i < 21
            invariant
                i <= 21,
                out@.len() == i,
                forall|k: int|
                    #![trigger out@[k]]
                    0 <= k < i ==> out@[k].id@ == language_ids()[k] && out@[k].label == table_labels(
                        OSD_LANGUAGES@,
                    )[k],
            decreases 21 - i,
        {
            out.push(
                ChoiceOption {
                    id: hex_string(OSD_LANGUAGES[i].0 as u64, 2),
                    label: OSD_LANGUAGES[i].1,
                },
            );
            i = i + 1;
        }
        out
    }

    /// The sliders as shown.
    pub open spec fn range_controls(self) -> Seq<Range> {
        seq![
            slider("brightness", "Brightness", 100, self.brightness, "", None, None),
            slider("contrast", "Contrast", 100, self.contrast, "", None, None),
            slider("volume", "Volume", 100, self.volume, "audio", None, None),
            slider("sharpness", "Sharpness", 100, self.sharpness, "", None, None),
            slider("light_enhancement", "Light Enhancement", 3, self.light_enhancement, "", None, None),
            slider("color_enhancement", "Color Enhancement", 3, self.color_enhancement, "", None, None),
            slider("osd_h_position", "OSD Horizontal Position", 100, self.osd_h_position, "osd", None, None),
            slider("osd_v_position", "OSD Vertical Position", 100, self.osd_v_position, "osd", None, None),
            slider("power_led", "Power LED Brightness", 4, self.power_led, "setup", Some("Off"), Some("Max")),
        ]
    }

    /// The switches as shown. `usb_category` and `power_category` place the USB standby
    /// and the Smart Power switch, which the device page and the plain listing put under
    /// different headings.
    pub open spec fn boolean_controls(
        self,
        usb_category: &'static str,
        power_category: &'static str,
    ) -> Seq<Boolean> {
        seq![
            Boolean { key: "adaptive_sync", label: "Adaptive Sync", value: self.adaptive_sync, read_only: false, category: "" },
            Boolean { key: "low_input_lag", label: "Low Input Lag", value: self.low_input_lag, read_only: false, category: "" },
            Boolean { key: "audio_mute", label: "Mute Audio", value: self.audio_mute, read_only: false, category: "audio" },
            Boolean { key: "resolution_notice", label: "Resolution Notice", value: self.resolution_notice, read_only: false, category: "osd" },
            Boolean { key: "usb_standby", label: "USB Standby Mode", value: self.usb_standby, read_only: false, category: usb_category },
            Boolean { key: "smart_power", label: "Smart Power", value: self.smart_power, read_only: false, category: power_category },
            Boolean { key: "cec", label: "CEC", value: self.cec, read_only: false, category: "setup" },
            Boolean { key: "auto_warning", label: "Auto Warning", value: self.auto_warning, read_only: false, category: "setup" },
            Boolean { key: "srgb", label: "sRGB", value: self.srgb, read_only: false, category: "" },
            Boolean { key: "hdr_active", label: "HDR Active", value: hdr_active(self.smart_image), read_only: true, category: "" },
        ]
    }

    /// Whether `c` shows the selection at position `n`.
    pub open spec fn is_choice_control(self, c: Choice, n: int) -> bool {
        let (key, label, ids, labels, selected, category) = self.choice_model(n);
        &&& c.key == key
        &&& c.label == label
        &&& options_are(c.options@, ids, labels)
        &&& c.selected == selected
        &&& c.category == category
        &&& c.display == ChoiceDisplay::Auto
    }

    /// Key, label, option ids, option labels, selection and category of the selection
    /// shown at position `n`.
    pub open spec fn choice_model(self, n: int) -> (
        &'static str,
        &'static str,
        Seq<Seq<char>>,
        Seq<&'static str>,
        usize,
        &'static str,
    ) {
        if n == 0 {
            ("input_source", "Input Source", port_ids(), port_labels(), self.input_source, "")
        } else if n == 1 {
            ("smart_image", "SmartImage", numerals(17), table_labels(SMART_IMAGE_MODES@), self.smart_image, "")
        } else if n == 2 {
            ("color_temperature", "Color Temperature", numerals(8), table_labels(COLOR_TEMPERATURES@), self.color_temperature, "")
        } else if n == 3 {
            ("gamma", "Gamma", numerals(5), table_labels(GAMMA_VALUES@), self.gamma, "")
        } else if n == 4 {
            ("pixel_orbiting", "Pixel Orbiting", numerals(4), table_labels(PIXEL_ORBITING_OPTIONS@), self.pixel_orbiting, "setup")
        } else if n == 5 {
            ("screen_saver", "Screen Saver", numerals(3), table_labels(SCREEN_SAVER_OPTIONS@), self.screen_saver, "setup")
        } else if n == 6 {
            ("crosshair", "Crosshair", numerals(3), seq!["Off", "On", "Smart"], self.crosshair, "")
        } else if n == 7 {
            ("smart_response", "SmartResponse", numerals(4), seq!["Off", "Fast", "Faster", "Fastest"], self.smart_response, "")
        } else if n == 8 {
            ("osd_transparency", "OSD Transparency", numerals(5), seq!["Off", "1", "2", "3", "4"], self.osd_transparency, "osd")
        } else if n == 9 {
            ("osd_timeout", "OSD Timeout", numerals(5), seq!["5 s", "10 s", "20 s", "30 s", "60 s"], self.osd_timeout, "osd")
        } else if n == 10 {
            ("osd_language", "OSD Language", language_ids(), table_labels(OSD_LANGUAGES@), self.osd_language, "osd")
        } else if n == 11 {
            ("usb_c_setting", "USB-C Setting", numerals(2), seq!["High Resolution (USB 2.0)", "High Data Speed (USB 3.2)"], self.usb_c_setting, "system_usb")
        } else {
            ("kvm", "KVM", numerals(3), seq!["Auto", "USB Up", "USB-C"], self.kvm, "system_usb")
        }
    }

    /// The sliders as shown.
    fn build_ranges(&self) -> (r: Vec<Range>)
        ensures
            r@ == self.range_controls(),
    {
        vec![
            make_slider("brightness", "Brightness", 100, self.brightness, "", None, None),
            make_slider("contrast", "Contrast", 100, self.contrast, "", None, None),
            make_slider("volume", "Volume", 100, self.volume, "audio", None, None),
            make_slider("sharpness", "Sharpness", 100, self.sharpness, "", None, None),
            make_slider("light_enhancement", "Light Enhancement", 3, self.light_enhancement, "", None, None),
            make_slider("color_enhancement", "Color Enhancement", 3, self.color_enhancement, "", None, None),
            make_slider("osd_h_position", "OSD Horizontal Position", 100, self.osd_h_position, "osd", None, None),
            make_slider("osd_v_position", "OSD Vertical Position", 100, self.osd_v_position, "osd", None, None),
            make_slider("power_led", "Power LED Brightness", 4, self.power_led, "setup", Some("Off"), Some("Max")),
        ]
    }

    /// The switches as shown.
    fn build_booleans(&self, usb_category: &'static str, power_category: &'static str) -> (r: Vec<
        Boolean,
    >)
        ensures
            r@ == self.boolean_controls(usb_category, power_category),
    {
        vec![
            Boolean { key: "adaptive_sync", label: "Adaptive Sync", value: self.adaptive_sync, read_only: false, category: "" },
            Boolean { key: "low_input_lag", label: "Low Input Lag", value: self.low_input_lag, read_only: false, category: "" },
            Boolean { key: "audio_mute", label: "Mute Audio", value: self.audio_mute, read_only: false, category: "audio" },
            Boolean { key: "resolution_notice", label: "Resolution Notice", value: self.resolution_notice, read_only: false, category: "osd" },
            Boolean { key: "usb_standby", label: "USB Standby Mode", value: self.usb_standby, read_only: false, category: usb_category },
            Boolean { key: "smart_power", label: "Smart Power", value: self.smart_power, read_only: false, category: power_category },
            Boolean { key: "cec", label: "CEC", value: self.cec, read_only: false, category: "setup" },
            Boolean { key: "auto_warning", label: "Auto Warning", value: self.auto_warning, read_only: false, category: "setup" },
            Boolean { key: "srgb", label: "sRGB", value: self.srgb, read_only: false, category: "" },
            Boolean { key: "hdr_active", label: "HDR Active", value: smart_image_is_hdr_active(self.smart_image), read_only: true, category: "" },
        ]
    }

    /// The selections as shown.
    fn build_choices(&self) -> (r: Vec<Choice>)
        ensures
            r@.len() == 13,
            forall|n: int| 0 <= n < 13 ==> self.is_choice_control(#[trigger] r@[n], n),
    {
        let o0 = Self::input_choice_options();
        let o1 = choices_from_table(&SMART_IMAGE_MODES);
        let o2 = choices_from_table(&COLOR_TEMPERATURES);
        let o3 = choices_from_table(&GAMMA_VALUES);
        let o4 = choices_from_table(&PIXEL_ORBITING_OPTIONS);
        let o5 = choices_from_table(&SCREEN_SAVER_OPTIONS);
        let o6 = {
            let labels: [&'static str; 3] = ["Off", "On", "Smart"];
            numbered_options(&labels)
        };
        let o7 = {
            let labels: [&'static str; 4] = ["Off", "Fast", "Faster", "Fastest"];
            numbered_options(&labels)
        };
        let o8 = {
            let labels: [&'static str; 5] = ["Off", "1", "2", "3", "4"];
            numbered_options(&labels)
        };
        let o9 = {
            let labels: [&'static str; 5] = ["5 s", "10 s", "20 s", "30 s", "60 s"];
            numbered_options(&labels)
        };
        let o10 = Self::language_choice_options();
        let o11 = {
            let labels: [&'static str; 2] = ["High Resolution (USB 2.0)", "High Data Speed (USB 3.2)"];
            numbered_options(&labels)
        };
        let o12 = {
            let labels: [&'static str; 3] = ["Auto", "USB Up", "USB-C"];
            numbered_options(&labels)
        };
        let r: Vec<Choice> = vec![
            Choice { key: "input_source", label: "Input Source", options: o0, selected: self.input_source, category: "", display: ChoiceDisplay::Auto },
            Choice { key: "smart_image", label: "SmartImage", options: o1, selected: self.smart_image, category: "", display: ChoiceDisplay::Auto },
            Choice { key: "color_temperature", label: "Color Temperature", options: o2, selected: self.color_temperature, category: "", display: ChoiceDisplay::Auto },
            Choice { key: "gamma", label: "Gamma", options: o3, selected: self.gamma, category: "", display: ChoiceDisplay::Auto },
            Choice { key: "pixel_orbiting", label: "Pixel Orbiting", options: o4, selected: self.pixel_orbiting, category: "setup", display: ChoiceDisplay::Auto },
            Choice { key: "screen_saver", label: "Screen Saver", options: o5, selected: self.screen_saver, category: "setup", display: ChoiceDisplay::Auto },
            Choice { key: "crosshair", label: "Crosshair", options: o6, selected: self.crosshair, category: "", display: ChoiceDisplay::Auto },
            Choice { key: "smart_response", label: "SmartResponse", options: o7, selected: self.smart_response, category: "", display: ChoiceDisplay::Auto },
            Choice { key: "osd_transparency", label: "OSD Transparency", options: o8, selected: self.osd_transparency, category: "osd", display: ChoiceDisplay::Auto },
            Choice { key: "osd_timeout", label: "OSD Timeout", options: o9, selected: self.osd_timeout, category: "osd", display: ChoiceDisplay::Auto },
            Choice { key: "osd_language", label: "OSD Language", options: o10, selected: self.osd_language, category: "osd", display: ChoiceDisplay::Auto },
            Choice { key: "usb_c_setting", label: "USB-C Setting", options: o11, selected: self.usb_c_setting, category: "system_usb", display: ChoiceDisplay::Auto },
            Choice { key: "kvm", label: "KVM", options: o12, selected: self.kvm, category: "system_usb", display: ChoiceDisplay::Auto },
        ];
        proof {
            assert(options_are(o6@, numerals(3), seq!["Off", "On", "Smart"])) by {
                assert(seq!["Off", "On", "Smart"].len() == 3);
            }
            assert(options_are(o7@, numerals(4), seq!["Off", "Fast", "Faster", "Fastest"])) by {
                assert(seq!["Off", "Fast", "Faster", "Fastest"].len() == 4);
            }
            assert(options_are(o8@, numerals(5), seq!["Off", "1", "2", "3", "4"])) by {
                assert(seq!["Off", "1", "2", "3", "4"].len() == 5);
            }
            assert(options_are(o9@, numerals(5), seq!["5 s", "10 s", "20 s", "30 s", "60 s"])) by {
                assert(seq!["5 s", "10 s", "20 s", "30 s", "60 s"].len() == 5);
            }
            assert(options_are(o11@, numerals(2), seq!["High Resolution (USB 2.0)", "High Data Speed (USB 3.2)"])) by {
                assert(seq!["High Resolution (USB 2.0)", "High Data Speed (USB 3.2)"].len() == 2);
            }
            assert(options_are(o12@, numerals(3), seq!["Auto", "USB Up", "USB-C"])) by {
                assert(seq!["Auto", "USB Up", "USB-C"].len() == 3);
            }
        }
        r
    }

    /// The switches with their positions.
    pub fn get_booleans(&self) -> (r: Vec<Boolean>)
        ensures
            r@ == self.boolean_controls("setup", "system_smart_power"),
    {
        self.build_booleans("setup", "system_smart_power")
    }

    /// The monitor with all its controls.
    pub fn serialize(&self) -> (r: WireDevice)
        ensures
            r.id@ == self.id@,
            r.name == "Philips Evnia 49",
            r.vendor == "Philips",
            r.model == "49M2C8900",
            r.device_type == DeviceType::Monitor,
            r.connected == self.protocol.connected,
            same_option(r.serial_number, self.info.serial),
            r.control_layout@.len() == 0,
            r.capabilities@.len() == 4,
            r.capabilities@[0] matches DeviceCapability::Range(v) && v@ == self.range_controls(),
            r.capabilities@[1] matches DeviceCapability::Boolean(v) && v@ == self.boolean_controls(
                "system_usb",
                "setup",
            ),
            r.capabilities@[2] matches DeviceCapability::Choice(v) && v@.len() == 13 && forall|n: int|
                0 <= n < 13 ==> self.is_choice_control(#[trigger] v@[n], n),
            r.capabilities@[3] matches DeviceCapability::Action(v) && v@ == seq![
                Action { key: "pixel_refresh", label: "Pixel Refresh", category: "setup" },
            ],
    {
        let ranges = self.build_ranges();
        let booleans = self.build_booleans("system_usb", "setup");
        let choices = self.build_choices();
        let actions: Vec<Action> = vec![
            Action { key: "pixel_refresh", label: "Pixel Refresh", category: "setup" },
        ];
        WireDevice {
            id: self.id.clone(),
            name: "Philips Evnia 49",
            vendor: "Philips",
            model: "49M2C8900",
            device_type: DeviceType::Monitor,
            connected: self.protocol.is_connected(),
            serial_number: copy_option(&self.info.serial),
            capabilities: vec![
                DeviceCapability::Range(ranges),
                DeviceCapability::Boolean(booleans),
                DeviceCapability::Choice(choices),
                DeviceCapability::Action(actions),
            ],
            control_layout: Vec::new(),
        }
    }
}

/// A slider from zero to `max` in steps of one.
pub open spec fn slider(
    key: &'static str,
    label: &'static str,
    max: i32,
    value: i32,
    category: &'static str,
    start_label: Option<&'static str>,
    end_label: Option<&'static str>,
) -> Range {
    Range {
        key,
        label,
        min: 0,
        max,
        step: 1,
        value,
        read_only: false,
        category,
        start_label,
        end_label,
        visible_when: None,
    }
}

/// A slider from zero to `max` in steps of one.
fn make_slider(
    key: &'static str,
    label: &'static str,
    max: i32,
    value: i32,
    category: &'static str,
    start_label: Option<&'static str>,
    end_label: Option<&'static str>,
) -> (r: Range)
    ensures
        r == slider(key, label, max, value, category, start_label, end_label),
{
    Range {
        key,
        label,
        min: 0,
        max,
        step: 1,
        value,
        read_only: false,
        category,
        start_label,
        end_label,
        visible_when: None,
    }
}

/// The identifiers of the input ports.
pub open spec fn port_ids() -> Seq<Seq<char>> {
    Seq::new(4, |i: int| INPUT_PORTS@[i].1@)
}

/// The labels of the input ports.
pub open spec fn port_labels() -> Seq<&'static str> {
    Seq::new(4, |i: int| INPUT_PORTS@[i].2)
}

/// The identifiers of the on-screen languages.
pub open spec fn language_ids() -> Seq<Seq<char>> {
    Seq::new(21, |i: int| hex(OSD_LANGUAGES@[i].0 as nat, 2))
}

/// `s`, unless it is empty.
pub open spec fn non_empty(s: Option<String>) -> Option<String> {
    match s {
        Some(t) => if t@.len() > 0 {
            Some(t)
        } else {
            None
        },
        None => None,
    }
}

/// `s`, unless it is empty.
fn keep_non_empty(s: Option<String>) -> (r: Option<String>)
    ensures
        r == non_empty(s),
{
    match s {
        Some(t) => if t.as_str().unicode_len() > 0 {
            Some(t)
        } else {
            None
        },
        None => None,
    }
}

/// One named line, if there is a value.
pub open spec fn info_line(name: &'static str, value: Option<String>) -> Seq<
    (&'static str, Seq<char>),
> {
    match value {
        Some(v) => seq![(name, v@)],
        None => Seq::empty(),
    }
}

/// Named lines as texts.
pub open spec fn lines_view(lines: Seq<(&'static str, String)>) -> Seq<(&'static str, Seq<char>)> {
    Seq::new(lines.len(), |i: int| (lines[i].0, lines[i].1@))
}

/// Appends one named line, if there is a value.
fn push_info(out: &mut Vec<(&'static str, String)>, name: &'static str, value: &Option<String>)
    ensures
        lines_view(final(out)@) == lines_view(old(out)@) + info_line(name, *value),
{
    if let Some(v) = value {
        out.push((name, v.clone()));
    }
    proof {
        assert(lines_view(out@) =~= lines_view(old(out)@) + info_line(name, *value));
    }
}

/// The position that a search finds lies within the table.
proof fn lemma_position_in_range(codes: Seq<u8>, code: u8, from: nat)
    requires
        codes.len() > 0,
    ensures
        position_from(codes, code, from) < codes.len(),
    decreases codes.len() - from,
{
    if from < codes.len() && codes[from as int] != code {
        lemma_position_in_range(codes, code, from + 1);
    }
}

/// A reading never takes a control out of its range.
#[verifier::rlimit(60)]
#[verifier::spinoff_prover]
proof fn lemma_reading_keeps_wf(m: PhilipsEvnia49, s: Setting, raw: u16)
    requires
        m.wf(),
    ensures
        m.with_reading(s, raw).wf(),
{
    let after = m.with_reading(s, raw);
    assert forall|r: RangeSetting| 0 <= #[trigger] after.range_value(r) <= range_max(r) by {
        assert(0 <= m.range_value(r) <= range_max(r));
    }
    assert forall|c: ChoiceSetting| #[trigger] after.choice_value(c) < choice_count(c) by {
        assert(m.choice_value(c) < choice_count(c));
        if s == Setting::Choice(c) {
            let code = (raw % 256) as u8;
            lemma_position_in_range(port_codes(), code, 0);
            lemma_position_in_range(table_codes(SMART_IMAGE_MODES@), code, 0);
            lemma_position_in_range(table_codes(COLOR_TEMPERATURES@), code, 0);
            lemma_position_in_range(table_codes(GAMMA_VALUES@), code, 0);
            lemma_position_in_range(table_codes(PIXEL_ORBITING_OPTIONS@), code, 0);
            lemma_position_in_range(table_codes(SCREEN_SAVER_OPTIONS@), code, 0);
            lemma_position_in_range(table_codes(OSD_LANGUAGES@), code, 0);
        }
    }
}

/// A slider that was set reads back as the value that was remembered for it.
pub proof fn set_range_reads_back(s: RangeSetting, value: i32)
    ensures
        ({
            let stored = limited(value as int, range_max(s));
            limited((stored as u8) as int, range_max(s)) == stored
        }),
{
}

/// A switch that was set reads back in the position it was set to.
pub proof fn set_boolean_reads_back(s: BooleanSetting, on: bool)
    ensures
        boolean_reading(s, boolean_code(s, on) as u16) == on,
{
}

/// The search for a code that occurs first at `i` ends there.
proof fn lemma_position_is(codes: Seq<u8>, i: nat, from: nat)
    requires
        from <= i < codes.len(),
        forall|k: int| from <= k < i ==> codes[k] != codes[i as int],
    ensures
        position_from(codes, codes[i as int], from) == i,
    decreases i - from,
{
    if from < i {
        lemma_position_is(codes, i, from + 1);
    }
}

/// An option that was picked reads back as the same position, whatever the monitor
/// puts into the high byte of a table-coded reading.
#[verifier::rlimit(60)]
#[verifier::spinoff_prover]
pub proof fn set_choice_reads_back(s: ChoiceSetting, i: usize, high: u8)
    requires
        i < choice_count(s),
        high == 0 || (s is InputSource || s is SmartImage || s is ColorTemperature || s is Gamma
            || s is PixelOrbiting || s is ScreenSaver || s is OsdLanguage),
    ensures
        choice_reading(s, (high * 256 + choice_code(s, i as int)) as u16) == i,
{
    match s {
        ChoiceSetting::InputSource => lemma_position_is(port_codes(), i as nat, 0),
        ChoiceSetting::SmartImage => lemma_position_is(
            table_codes(SMART_IMAGE_MODES@),
            i as nat,
            0,
        ),
        ChoiceSetting::ColorTemperature => lemma_position_is(
            table_codes(COLOR_TEMPERATURES@),
            i as nat,
            0,
        ),
        ChoiceSetting::Gamma => lemma_position_is(table_codes(GAMMA_VALUES@), i as nat, 0),
        ChoiceSetting::PixelOrbiting => lemma_position_is(
            table_codes(PIXEL_ORBITING_OPTIONS@),
            i as nat,
            0,
        ),
        ChoiceSetting::ScreenSaver => lemma_position_is(
            table_codes(SCREEN_SAVER_OPTIONS@),
            i as nat,
            0,
        ),
        ChoiceSetting::OsdLanguage => lemma_position_is(table_codes(OSD_LANGUAGES@), i as nat, 0),
        _ => {},
    }
}

/// Setting a control changes that control and no other.
#[verifier::rlimit(60)]
#[verifier::spinoff_prover]
pub proof fn changes_are_local(
    m: PhilipsEvnia49,
    r: RangeSetting,
    rv: i32,
    b: BooleanSetting,
    bv: bool,
    c: ChoiceSetting,
    cv: usize,
)
    ensures
        forall|t: RangeSetting|
            m.with_range(r, rv).range_value(t) == if t == r {
                rv
            } else {
                m.range_value(t)
            },
        forall|t: BooleanSetting| m.with_range(r, rv).boolean_value(t) == m.boolean_value(t),
        forall|t: ChoiceSetting| m.with_range(r, rv).choice_value(t) == m.choice_value(t),
        forall|t: BooleanSetting|
            m.with_boolean(b, bv).boolean_value(t) == if t == b {
                bv
            } else {
                m.boolean_value(t)
            },
        forall|t: RangeSetting| m.with_boolean(b, bv).range_value(t) == m.range_value(t),
        forall|t: ChoiceSetting| m.with_boolean(b, bv).choice_value(t) == m.choice_value(t),
        forall|t: ChoiceSetting|
            m.with_choice(c, cv).choice_value(t) == if t == c {
                cv
            } else {
                m.choice_value(t)
            },
        forall|t: RangeSetting| m.with_choice(c, cv).range_value(t) == m.range_value(t),
        forall|t: BooleanSetting| m.with_choice(c, cv).boolean_value(t) == m.boolean_value(t),
{
}

/// A control that was set stays within its limits, and so do all others.
#[verifier::rlimit(60)]
#[verifier::spinoff_prover]
pub proof fn set_controls_keep_wf(m: PhilipsEvnia49, r: RangeSetting, value: i32, c: ChoiceSetting, i: usize)
    requires
        m.wf(),
        i < choice_count(c),
    ensures
        m.with_range(r, limited(value as int, range_max(r))).wf(),
        m.with_choice(c, i).wf(),
{
    let a = m.with_range(r, limited(value as int, range_max(r)));
    let b = m.with_choice(c, i);
    assert forall|t: RangeSetting|
        0 <= #[trigger] a.range_value(t) <= range_max(t) && 0 <= b.range_value(t) <= range_max(t) by {
        assert(0 <= m.range_value(t) <= range_max(t));
    }
    assert forall|t: RangeSetting| 0 <= #[trigger] b.range_value(t) <= range_max(t) by {
        assert(0 <= m.range_value(t) <= range_max(t));
    }
    assert forall|t: ChoiceSetting| #[trigger] a.choice_value(t) < choice_count(t) by {
        assert(m.choice_value(t) < choice_count(t));
    }
    assert forall|t: ChoiceSetting| #[trigger] b.choice_value(t) < choice_count(t) by {
        assert(m.choice_value(t) < choice_count(t));
    }
}

/// The remembered value of any control, as a number.
pub open spec fn setting_value(m: PhilipsEvnia49, s: Setting) -> int {
    match s {
        Setting::Range(r) => m.range_value(r) as int,
        Setting::Boolean(b) => if m.boolean_value(b) {
            1
        } else {
            0
        },
        Setting::Choice(c) => m.choice_value(c) as int,
    }
}

/// What a raw reading says about any control, as a number.
pub open spec fn setting_reading(s: Setting, raw: u16) -> int {
    match s {
        Setting::Range(r) => limited(raw as int, range_max(r)) as int,
        Setting::Boolean(b) => if boolean_reading(b, raw) {
            1
        } else {
            0
        },
        Setting::Choice(c) => choice_reading(c, raw) as int,
    }
}

/// The value of any control after a slider moved.
#[verifier::rlimit(60)]
#[verifier::spinoff_prover]
proof fn lemma_value_after_range(m: PhilipsEvnia49, r: RangeSetting, v: i32, t: Setting)
    ensures
        setting_value(m.with_range(r, v), t) == if t == Setting::Range(r) {
            v as int
        } else {
            setting_value(m, t)
        },
{
}

/// The value of any control after a switch was flipped.
#[verifier::rlimit(60)]
#[verifier::spinoff_prover]
proof fn lemma_value_after_boolean(m: PhilipsEvnia49, b: BooleanSetting, v: bool, t: Setting)
    ensures
        setting_value(m.with_boolean(b, v), t) == if t == Setting::Boolean(b) {
            if v { 1int } else { 0int }
        } else {
            setting_value(m, t)
        },
{
}

/// The value of any control after a selection.
#[verifier::rlimit(60)]
#[verifier::spinoff_prover]
proof fn lemma_value_after_choice(m: PhilipsEvnia49, c: ChoiceSetting, v: usize, t: Setting)
    ensures
        setting_value(m.with_choice(c, v), t) == if t == Setting::Choice(c) {
            v as int
        } else {
            setting_value(m, t)
        },
{
}

/// One reading changes the control it is about and no other.
proof fn lemma_reading_is_local(m: PhilipsEvnia49, s: Setting, raw: u16, t: Setting)
    ensures
        setting_value(m.with_reading(s, raw), t) == if s == t {
            setting_reading(s, raw)
        } else {
            setting_value(m, t)
        },
{
    match s {
        Setting::Range(r) => lemma_value_after_range(m, r, limited(raw as int, range_max(r)), t),
        Setting::Boolean(b) => lemma_value_after_boolean(m, b, boolean_reading(b, raw), t),
        Setting::Choice(c) => lemma_value_after_choice(m, c, choice_reading(c, raw), t),
    }
}

/// The controls of a refresh are pairwise different, and every control is among them.
#[verifier::rlimit(60)]
#[verifier::spinoff_prover]
pub proof fn refresh_covers_every_control()
    ensures
        refresh_order().len() == 31,
        forall|i: int, j: int|
            0 <= i < j < 31 ==> #[trigger] refresh_order()[i] != #[trigger] refresh_order()[j],
        forall|s: Setting| refresh_order().contains(s),
{
    let o = refresh_order();
    assert forall|s: Setting| o.contains(s) by {
        assert(o.contains(o[0]));
        assert(o.contains(o[1]));
        assert(o.contains(o[2]));
        assert(o.contains(o[3]));
        assert(o.contains(o[4]));
        assert(o.contains(o[5]));
        assert(o.contains(o[6]));
        assert(o.contains(o[7]));
        assert(o.contains(o[8]));
        assert(o.contains(o[9]));
        assert(o.contains(o[10]));
        assert(o.contains(o[11]));
        assert(o.contains(o[12]));
        assert(o.contains(o[13]));
        assert(o.contains(o[14]));
        assert(o.contains(o[15]));
        assert(o.contains(o[16]));
        assert(o.contains(o[17]));
        assert(o.contains(o[18]));
        assert(o.contains(o[19]));
        assert(o.contains(o[20]));
        assert(o.contains(o[21]));
        assert(o.contains(o[22]));
        assert(o.contains(o[23]));
        assert(o.contains(o[24]));
        assert(o.contains(o[25]));
        assert(o.contains(o[26]));
        assert(o.contains(o[27]));
        assert(o.contains(o[28]));
        assert(o.contains(o[29]));
        assert(o.contains(o[30]));
    }
}

/// After a refresh every control shows what its own reading said, and keeps its value
/// where that reading failed.
pub proof fn refresh_applies_each_reading(m: PhilipsEvnia49, readings: Seq<Option<u16>>, i: int)
    requires
        0 <= i < 31,
    ensures
        setting_value(m.refreshed(readings, 31), refresh_order()[i]) == if i < readings.len()
            && readings[i] is Some {
            setting_reading(refresh_order()[i], readings[i]->Some_0)
        } else {
            setting_value(m, refresh_order()[i])
        },
{
    refresh_covers_every_control();
    lemma_refreshed_value(m, readings, i, 31);
}

/// The value of control `i` after the first `n` readings.
proof fn lemma_refreshed_value(m: PhilipsEvnia49, readings: Seq<Option<u16>>, i: int, n: nat)
    requires
        0 <= i < 31,
        n <= 31,
        refresh_order().len() == 31,
        forall|a: int, b: int|
            0 <= a < b < 31 ==> #[trigger] refresh_order()[a] != #[trigger] refresh_order()[b],
    ensures
        setting_value(m.refreshed(readings, n), refresh_order()[i]) == if i < n && i
            < readings.len() && readings[i] is Some {
            setting_reading(refresh_order()[i], readings[i]->Some_0)
        } else {
            setting_value(m, refresh_order()[i])
        },
    decreases n,
{
    if n > 0 {
        lemma_refreshed_value(m, readings, i, (n - 1) as nat);
        if n <= readings.len() && readings[n - 1] is Some {
            lemma_reading_is_local(
                m.refreshed(readings, (n - 1) as nat),
                refresh_order()[n - 1],
                readings[n - 1]->Some_0,
                refresh_order()[i],
            );
        }
    }
}

/// Whether a frame stores a value under a standard code.
pub open spec fn stores_standard(frame: Seq<u8>, code: u8, value: int) -> bool {
    &&& frame.len() == 8
    &&& frame[0] == 0x6e && frame[1] == 0x51 && frame[2] == 0x84 && frame[3] == 0x03
    &&& frame[4] == code
    &&& 256 * frame[5] + frame[6] == value
}

/// Whether a frame stores a value under a code of the extended page.
pub open spec fn stores_extended(frame: Seq<u8>, code: u8, value: int) -> bool {
    &&& frame.len() == 10
    &&& frame[0] == 0x6e && frame[1] == 0x51 && frame[2] == 0x86 && frame[3] == 0x03
    &&& frame[4] == 0xe2 && frame[5] == 0xa0
    &&& frame[6] == code
    &&& 256 * frame[7] + frame[8] == value
}

/// Whether a frame asks for a standard code.
pub open spec fn asks_standard(frame: Seq<u8>, code: u8) -> bool {
    &&& frame.len() == 6
    &&& frame[0] == 0x6e && frame[1] == 0x51 && frame[2] == 0x82 && frame[3] == 0x01
    &&& frame[4] == code
}

/// Whether a frame asks for a code of the extended page.
pub open spec fn asks_extended(frame: Seq<u8>, code: u8) -> bool {
    &&& frame.len() == 8
    &&& frame[0] == 0x6e && frame[1] == 0x51 && frame[2] == 0x84 && frame[3] == 0x01
    &&& frame[4] == 0xe2 && frame[5] == 0xa0
    &&& frame[6] == code
}

/// The keys are all different, so each names its own control.
proof fn lemma_range_keys()
    ensures
        range_named("brightness"@) == Some(RangeSetting::Brightness),
        range_named("contrast"@) == Some(RangeSetting::Contrast),
        range_named("volume"@) == Some(RangeSetting::Volume),
        range_named("sharpness"@) == Some(RangeSetting::Sharpness),
        range_named("light_enhancement"@) == Some(RangeSetting::LightEnhancement),
        range_named("color_enhancement"@) == Some(RangeSetting::ColorEnhancement),
        range_named("osd_h_position"@) == Some(RangeSetting::OsdHPosition),
        range_named("osd_v_position"@) == Some(RangeSetting::OsdVPosition),
        range_named("power_led"@) == Some(RangeSetting::PowerLed),
{
    reveal_strlit("brightness");
    reveal_strlit("contrast");
    reveal_strlit("volume");
    reveal_strlit("sharpness");
    reveal_strlit("light_enhancement");
    reveal_strlit("color_enhancement");
    reveal_strlit("osd_h_position");
    reveal_strlit("osd_v_position");
    reveal_strlit("power_led");
    assert("brightness"@.len() == 10 && "contrast"@.len() == 8 && "volume"@.len() == 6
        && "sharpness"@.len() == 9 && "light_enhancement"@.len() == 17
        && "color_enhancement"@.len() == 17 && "osd_h_position"@.len() == 14
        && "osd_v_position"@.len() == 14 && "power_led"@.len() == 9);
    assert("color_enhancement"@[0] == 'c' && "light_enhancement"@[0] == 'l'
        && "osd_h_position"@[4] == 'h' && "osd_v_position"@[4] == 'v' && "power_led"@[0] == 'p'
        && "sharpness"@[0] == 's');
}

/// The keys are all different, so each names its own control.
proof fn lemma_boolean_keys()
    ensures
        boolean_named("adaptive_sync"@) == Some(BooleanSetting::AdaptiveSync),
        boolean_named("low_input_lag"@) == Some(BooleanSetting::LowInputLag),
        boolean_named("audio_mute"@) == Some(BooleanSetting::AudioMute),
        boolean_named("resolution_notice"@) == Some(BooleanSetting::ResolutionNotice),
        boolean_named("usb_standby"@) == Some(BooleanSetting::UsbStandby),
        boolean_named("smart_power"@) == Some(BooleanSetting::SmartPower),
        boolean_named("cec"@) == Some(BooleanSetting::Cec),
        boolean_named("auto_warning"@) == Some(BooleanSetting::AutoWarning),
        boolean_named("srgb"@) == Some(BooleanSetting::Srgb),
{
    reveal_strlit("adaptive_sync");
    reveal_strlit("low_input_lag");
    reveal_strlit("audio_mute");
    reveal_strlit("resolution_notice");
    reveal_strlit("usb_standby");
    reveal_strlit("smart_power");
    reveal_strlit("cec");
    reveal_strlit("auto_warning");
    reveal_strlit("srgb");
    assert("adaptive_sync"@.len() == 13 && "low_input_lag"@.len() == 13
        && "audio_mute"@.len() == 10 && "resolution_notice"@.len() == 17
        && "usb_standby"@.len() == 11 && "smart_power"@.len() == 11 && "cec"@.len() == 3
        && "auto_warning"@.len() == 12 && "srgb"@.len() == 4);
    assert("adaptive_sync"@[0] == 'a' && "low_input_lag"@[0] == 'l' && "smart_power"@[0] == 's'
        && "usb_standby"@[0] == 'u');
}

/// The keys are all different, so each names its own control.
proof fn lemma_choice_keys()
    ensures
        choice_named("input_source"@) == Some(ChoiceSetting::InputSource),
        choice_named("smart_image"@) == Some(ChoiceSetting::SmartImage),
        choice_named("color_temperature"@) == Some(ChoiceSetting::ColorTemperature),
        choice_named("gamma"@) == Some(ChoiceSetting::Gamma),
        choice_named("pixel_orbiting"@) == Some(ChoiceSetting::PixelOrbiting),
        choice_named("screen_saver"@) == Some(ChoiceSetting::ScreenSaver),
        choice_named("crosshair"@) == Some(ChoiceSetting::Crosshair),
        choice_named("smart_response"@) == Some(ChoiceSetting::SmartResponse),
        choice_named("osd_transparency"@) == Some(ChoiceSetting::OsdTransparency),
        choice_named("osd_timeout"@) == Some(ChoiceSetting::OsdTimeout),
        choice_named("osd_language"@) == Some(ChoiceSetting::OsdLanguage),
        choice_named("usb_c_setting"@) == Some(ChoiceSetting::UsbCSetting),
        choice_named("kvm"@) == Some(ChoiceSetting::Kvm),
{
    reveal_strlit("input_source");
    reveal_strlit("smart_image");
    reveal_strlit("color_temperature");
    reveal_strlit("gamma");
    reveal_strlit("pixel_orbiting");
    reveal_strlit("screen_saver");
    reveal_strlit("crosshair");
    reveal_strlit("smart_response");
    reveal_strlit("osd_transparency");
    reveal_strlit("osd_timeout");
    reveal_strlit("osd_language");
    reveal_strlit("usb_c_setting");
    reveal_strlit("kvm");
    assert("input_source"@.len() == 12 && "smart_image"@.len() == 11
        && "color_temperature"@.len() == 17 && "gamma"@.len() == 5
        && "pixel_orbiting"@.len() == 14 && "screen_saver"@.len() == 12 && "crosshair"@.len() == 9
        && "smart_response"@.len() == 14 && "osd_transparency"@.len() == 16
        && "osd_timeout"@.len() == 11 && "osd_language"@.len() == 12
        && "usb_c_setting"@.len() == 13 && "kvm"@.len() == 3);
    assert("input_source"@[0] == 'i' && "osd_language"@[0] == 'o' && "osd_timeout"@[0] == 'o'
        && "pixel_orbiting"@[0] == 'p' && "screen_saver"@[0] == 's' && "smart_image"@[0] == 's'
        && "smart_response"@[0] == 's');
}

/// A slider is stored under the code that the monitor keeps that control under, and its
/// value is the given one, limited to the slider. Unknown keys are refused.
pub proof fn sliders_have_their_codes(
    m: PhilipsEvnia49,
    key: &str,
    value: i32,
    r: Result<RangeChange, ControlError>,
)
    requires
        call_ensures(PhilipsEvnia49::set_range, (&m, key, value), r),
    ensures
        key@ == "brightness"@ ==> r is Ok && stores_standard(r->Ok_0.frame@, 0x10,
            r->Ok_0.value as int) && (0
            <= value <= 100 ==> r->Ok_0.value == value) && (value > 100 ==> r->Ok_0.value == 100),
        key@ == "contrast"@ ==> r is Ok && stores_standard(r->Ok_0.frame@, 0x12,
            r->Ok_0.value as int) && (0
            <= value <= 100 ==> r->Ok_0.value == value) && (value > 100 ==> r->Ok_0.value == 100),
        key@ == "volume"@ ==> r is Ok && stores_standard(r->Ok_0.frame@, 0x62,
            r->Ok_0.value as int) && (0
            <= value <= 100 ==> r->Ok_0.value == value) && (value > 100 ==> r->Ok_0.value == 100),
        key@ == "sharpness"@ ==> r is Ok && stores_standard(r->Ok_0.frame@, 0x87,
            r->Ok_0.value as int) && (0
            <= value <= 100 ==> r->Ok_0.value == value) && (value > 100 ==> r->Ok_0.value == 100),
        key@ == "light_enhancement"@ ==> r is Ok && stores_extended(r->Ok_0.frame@, 0x3d,
            r->Ok_0.value as int) && (0
            <= value <= 3 ==> r->Ok_0.value == value) && (value > 3 ==> r->Ok_0.value == 3),
        key@ == "color_enhancement"@ ==> r is Ok && stores_extended(r->Ok_0.frame@, 0x3e,
            r->Ok_0.value as int) && (0
            <= value <= 3 ==> r->Ok_0.value == value) && (value > 3 ==> r->Ok_0.value == 3),
        key@ == "osd_h_position"@ ==> r is Ok && stores_extended(r->Ok_0.frame@, 0x0e,
            r->Ok_0.value as int) && (0
            <= value <= 100 ==> r->Ok_0.value == value) && (value > 100 ==> r->Ok_0.value == 100),
        key@ == "osd_v_position"@ ==> r is Ok && stores_extended(r->Ok_0.frame@, 0x0f,
            r->Ok_0.value as int) && (0
            <= value <= 100 ==> r->Ok_0.value == value) && (value > 100 ==> r->Ok_0.value == 100),
        key@ == "power_led"@ ==> r is Ok && stores_standard(r->Ok_0.frame@, 0xf2,
            r->Ok_0.value as int) && (0
            <= value <= 4 ==> r->Ok_0.value == value) && (value > 4 ==> r->Ok_0.value == 4),
        r is Ok && value < 0 ==> r->Ok_0.value == 0,
        r is Ok ==> key@ == "brightness"@ || key@ == "contrast"@ || key@ == "volume"@
            || key@ == "sharpness"@ || key@ == "light_enhancement"@ || key@ == "color_enhancement"@
            || key@ == "osd_h_position"@ || key@ == "osd_v_position"@ || key@ == "power_led"@,
{
    lemma_range_keys();
}

/// A switch is stored under the code that the monitor keeps it under, as the byte that
/// stands for its position there. Unknown keys are refused.
pub proof fn switches_have_their_codes(
    m: PhilipsEvnia49,
    key: &str,
    on: bool,
    r: Result<BooleanChange, ControlError>,
)
    requires
        call_ensures(PhilipsEvnia49::set_boolean, (&m, key, on), r),
    ensures
        r is Ok ==> r->Ok_0.value == on,
        key@ == "adaptive_sync"@ ==> r is Ok && stores_extended(r->Ok_0.frame@, 0x40,
            if on { 1 } else { 0 }),
        key@ == "low_input_lag"@ ==> r is Ok && stores_extended(r->Ok_0.frame@, 0x07,
            if on { 1 } else { 0 }),
        key@ == "audio_mute"@ ==> r is Ok && stores_standard(r->Ok_0.frame@, 0x8d,
            if on { 1 } else { 2 }),
        key@ == "resolution_notice"@ ==> r is Ok && stores_standard(r->Ok_0.frame@, 0xe9,
            if on { 2 } else { 0 }),
        key@ == "usb_standby"@ ==> r is Ok && stores_extended(r->Ok_0.frame@, 0x13,
            if on { 1 } else { 0 }),
        key@ == "smart_power"@ ==> r is Ok && stores_extended(r->Ok_0.frame@, 0x16,
            if on { 1 } else { 0 }),
        key@ == "cec"@ ==> r is Ok && stores_extended(r->Ok_0.frame@, 0x17, if on { 1 } else { 0 }),
        key@ == "auto_warning"@ ==> r is Ok && stores_extended(r->Ok_0.frame@, 0x43,
            if on { 1 } else { 0 }),
        key@ == "srgb"@ ==> r is Ok && stores_extended(r->Ok_0.frame@, 0x20,
            if on { 2 } else { 0 }),
        r is Ok ==> key@ == "adaptive_sync"@ || key@ == "low_input_lag"@ || key@ == "audio_mute"@
            || key@ == "resolution_notice"@ || key@ == "usb_standby"@ || key@ == "smart_power"@
            || key@ == "cec"@ || key@ == "auto_warning"@ || key@ == "srgb"@,
{
    lemma_boolean_keys();
}

/// The options of a selection and the codes that the monitor knows them by, in the order in
/// which they are offered. Selections without codes of their own store the position.
#[verifier::rlimit(60)]
#[verifier::spinoff_prover]
pub proof fn options_have_their_codes(s: ChoiceSetting, i: int, m: PhilipsEvnia49)
    requires
        0 <= i < choice_count(s),
    ensures
        s is InputSource ==> choice_code(s, i) == seq![0x0Fu8, 0x10, 0x11, 0x12][i],
        s is InputSource ==> m.choice_model(0).3[i] == seq!["DisplayPort 1", "DisplayPort 2",
            "HDMI 1", "HDMI 2"][i],
        s is InputSource ==> choice_count(s) == 4 && m.choice_model(0).3.len() == 4,
        s is SmartImage ==> choice_code(s, i) == seq![0x00u8, 0x01, 0x03, 0x04, 0x05, 0x06, 0x07,
            0x08, 0x0B, 0x0E, 0x11, 0x21, 0x22, 0x23, 0x30, 0x24, 0x20][i],
        s is SmartImage ==> m.choice_model(1).3[i] == seq!["Standard", "FPS", "Movie", "Game 1",
            "Game 2", "Racing", "RTS", "Economy", "LowBlue Mode", "EasyRead", "Console Mode",
            "HDR Game", "HDR Movie", "HDR Vivid", "HDR True Black", "HDR Personal", "HDR Off"][i],
        s is SmartImage ==> choice_count(s) == 17 && m.choice_model(1).3.len() == 17,
        s is ColorTemperature ==> choice_code(s, i) == seq![0x02u8, 0x04, 0x05, 0x06, 0x07, 0x08,
            0x0A, 0x0D][i],
        s is ColorTemperature ==> m.choice_model(2).3[i] == seq!["Native", "5000K", "6500K",
            "7500K", "8200K", "9300K", "11500K", "Preset"][i],
        s is ColorTemperature ==> choice_count(s) == 8 && m.choice_model(2).3.len() == 8,
        s is Gamma ==> choice_code(s, i) == seq![0x50u8, 0x64, 0x78, 0x8C, 0xA0][i],
        s is Gamma ==> m.choice_model(3).3[i] == seq!["1.0", "2.0", "2.2", "2.4", "2.6"][i],
        s is Gamma ==> choice_count(s) == 5 && m.choice_model(3).3.len() == 5,
        s is PixelOrbiting ==> choice_code(s, i) == seq![0x00u8, 0x02, 0x03, 0x04][i],
        s is PixelOrbiting ==> m.choice_model(4).3[i] == seq!["Off", "Slow", "Normal", "Fast"][i],
        s is PixelOrbiting ==> choice_count(s) == 4 && m.choice_model(4).3.len() == 4,
        s is ScreenSaver ==> choice_code(s, i) == seq![0x00u8, 0x02, 0x03][i],
        s is ScreenSaver ==> m.choice_model(5).3[i] == seq!["Off", "Slow", "Fast"][i],
        s is ScreenSaver ==> choice_count(s) == 3 && m.choice_model(5).3.len() == 3,
        s is Crosshair ==> choice_code(s, i) == i,
        s is Crosshair ==> choice_count(s) == 3 && m.choice_model(6).3.len() == 3,
        s is SmartResponse ==> choice_code(s, i) == i,
        s is SmartResponse ==> choice_count(s) == 4 && m.choice_model(7).3.len() == 4,
        s is OsdTransparency ==> choice_code(s, i) == i,
        s is OsdTransparency ==> choice_count(s) == 5 && m.choice_model(8).3.len() == 5,
        s is OsdTimeout ==> choice_code(s, i) == i,
        s is OsdTimeout ==> choice_count(s) == 5 && m.choice_model(9).3.len() == 5,
        s is OsdLanguage ==> choice_code(s, i) == seq![0x01u8, 0x02, 0x03, 0x04, 0x05, 0x06, 0x07,
            0x08, 0x09, 0x0A, 0x0B, 0x0C, 0x0D, 0x0E, 0x12, 0x14, 0x16, 0x17, 0x1A, 0x1E, 0x24][i],
        s is OsdLanguage ==> m.choice_model(10).3[i] == seq!["Chinese (Traditional)", "English",
            "French", "German", "Italian", "Japanese", "Korean", "Portuguese", "Russian",
            "Spanish", "Chinese (Simplified)", "Dutch", "Czech", "Polish", "Hungarian", "Turkish",
            "Brazilian Portuguese", "Finnish", "Greek", "Ukrainian", "Swedish"][i],
        s is OsdLanguage ==> choice_count(s) == 21 && m.choice_model(10).3.len() == 21,
        s is UsbCSetting ==> choice_code(s, i) == i,
        s is UsbCSetting ==> choice_count(s) == 2 && m.choice_model(11).3.len() == 2,
        s is Kvm ==> choice_code(s, i) == i,
        s is Kvm ==> choice_count(s) == 3 && m.choice_model(12).3.len() == 3,
{
    let t0 = INPUT_PORTS;
    assert(t0@[0].0 == 0x0F && t0@[0].2 == "DisplayPort 1" && t0@[1].0 == 0x10
        && t0@[1].2 == "DisplayPort 2" && t0@[2].0 == 0x11 && t0@[2].2 == "HDMI 1"
        && t0@[3].0 == 0x12 && t0@[3].2 == "HDMI 2");
    let t1 = SMART_IMAGE_MODES;
    assert(t1@[0].0 == 0x00 && t1@[0].1 == "Standard" && t1@[1].0 == 0x01 && t1@[1].1 == "FPS"
        && t1@[2].0 == 0x03 && t1@[2].1 == "Movie" && t1@[3].0 == 0x04 && t1@[3].1 == "Game 1"
        && t1@[4].0 == 0x05 && t1@[4].1 == "Game 2" && t1@[5].0 == 0x06 && t1@[5].1 == "Racing"
        && t1@[6].0 == 0x07 && t1@[6].1 == "RTS" && t1@[7].0 == 0x08 && t1@[7].1 == "Economy"
        && t1@[8].0 == 0x0B && t1@[8].1 == "LowBlue Mode" && t1@[9].0 == 0x0E
        && t1@[9].1 == "EasyRead" && t1@[10].0 == 0x11 && t1@[10].1 == "Console Mode"
        && t1@[11].0 == 0x21 && t1@[11].1 == "HDR Game" && t1@[12].0 == 0x22
        && t1@[12].1 == "HDR Movie" && t1@[13].0 == 0x23 && t1@[13].1 == "HDR Vivid"
        && t1@[14].0 == 0x30 && t1@[14].1 == "HDR True Black" && t1@[15].0 == 0x24
        && t1@[15].1 == "HDR Personal" && t1@[16].0 == 0x20 && t1@[16].1 == "HDR Off");
    let t2 = COLOR_TEMPERATURES;
    assert(t2@[0].0 == 0x02 && t2@[0].1 == "Native" && t2@[1].0 == 0x04 && t2@[1].1 == "5000K"
        && t2@[2].0 == 0x05 && t2@[2].1 == "6500K" && t2@[3].0 == 0x06 && t2@[3].1 == "7500K"
        && t2@[4].0 == 0x07 && t2@[4].1 == "8200K" && t2@[5].0 == 0x08 && t2@[5].1 == "9300K"
        && t2@[6].0 == 0x0A && t2@[6].1 == "11500K" && t2@[7].0 == 0x0D && t2@[7].1 == "Preset");
    let t3 = GAMMA_VALUES;
    assert(t3@[0].0 == 0x50 && t3@[0].1 == "1.0" && t3@[1].0 == 0x64 && t3@[1].1 == "2.0"
        && t3@[2].0 == 0x78 && t3@[2].1 == "2.2" && t3@[3].0 == 0x8C && t3@[3].1 == "2.4"
        && t3@[4].0 == 0xA0 && t3@[4].1 == "2.6");
    let t4 = PIXEL_ORBITING_OPTIONS;
    assert(t4@[0].0 == 0x00 && t4@[0].1 == "Off" && t4@[1].0 == 0x02 && t4@[1].1 == "Slow"
        && t4@[2].0 == 0x03 && t4@[2].1 == "Normal" && t4@[3].0 == 0x04 && t4@[3].1 == "Fast");
    let t5 = SCREEN_SAVER_OPTIONS;
    assert(t5@[0].0 == 0x00 && t5@[0].1 == "Off" && t5@[1].0 == 0x02 && t5@[1].1 == "Slow"
        && t5@[2].0 == 0x03 && t5@[2].1 == "Fast");
    let t10 = OSD_LANGUAGES;
    assert(t10@[0].0 == 0x01 && t10@[0].1 == "Chinese (Traditional)" && t10@[1].0 == 0x02
        && t10@[1].1 == "English" && t10@[2].0 == 0x03 && t10@[2].1 == "French"
        && t10@[3].0 == 0x04 && t10@[3].1 == "German" && t10@[4].0 == 0x05
        && t10@[4].1 == "Italian" && t10@[5].0 == 0x06 && t10@[5].1 == "Japanese"
        && t10@[6].0 == 0x07 && t10@[6].1 == "Korean" && t10@[7].0 == 0x08
        && t10@[7].1 == "Portuguese" && t10@[8].0 == 0x09 && t10@[8].1 == "Russian"
        && t10@[9].0 == 0x0A && t10@[9].1 == "Spanish" && t10@[10].0 == 0x0B
        && t10@[10].1 == "Chinese (Simplified)" && t10@[11].0 == 0x0C && t10@[11].1 == "Dutch"
        && t10@[12].0 == 0x0D && t10@[12].1 == "Czech" && t10@[13].0 == 0x0E
        && t10@[13].1 == "Polish" && t10@[14].0 == 0x12 && t10@[14].1 == "Hungarian"
        && t10@[15].0 == 0x14 && t10@[15].1 == "Turkish" && t10@[16].0 == 0x16
        && t10@[16].1 == "Brazilian Portuguese" && t10@[17].0 == 0x17 && t10@[17].1 == "Finnish"
        && t10@[18].0 == 0x1A && t10@[18].1 == "Greek" && t10@[19].0 == 0x1E
        && t10@[19].1 == "Ukrainian" && t10@[20].0 == 0x24 && t10@[20].1 == "Swedish");
}

/// A selection is stored under the code that the monitor keeps it under; positions past the
/// end pick the last option. Unknown keys are refused.
pub proof fn selections_have_their_codes(
    m: PhilipsEvnia49,
    key: &str,
    selected: usize,
    r: Result<ChoiceChange, ControlError>,
)
    requires
        call_ensures(PhilipsEvnia49::set_choice, (&m, key, selected), r),
    ensures
        key@ == "input_source"@ ==> r is Ok && stores_standard(
            r->Ok_0.frame@,
            0x60,
            choice_code(ChoiceSetting::InputSource, r->Ok_0.selected as int) as int,
        ) && (selected < 4 ==> r->Ok_0.selected == selected) && (selected >= 4 ==> r->Ok_0.selected
            == 3),
        key@ == "smart_image"@ ==> r is Ok && stores_standard(
            r->Ok_0.frame@,
            0xdc,
            choice_code(ChoiceSetting::SmartImage, r->Ok_0.selected as int) as int,
        ) && (selected < 17 ==> r->Ok_0.selected == selected) && (selected >= 17
            ==> r->Ok_0.selected
            == 16),
        key@ == "color_temperature"@ ==> r is Ok && stores_standard(
            r->Ok_0.frame@,
            0x14,
            choice_code(ChoiceSetting::ColorTemperature, r->Ok_0.selected as int) as int,
        ) && (selected < 8 ==> r->Ok_0.selected == selected) && (selected >= 8 ==> r->Ok_0.selected
            == 7),
        key@ == "gamma"@ ==> r is Ok && stores_standard(
            r->Ok_0.frame@,
            0x72,
            choice_code(ChoiceSetting::Gamma, r->Ok_0.selected as int) as int,
        ) && (selected < 5 ==> r->Ok_0.selected == selected) && (selected >= 5 ==> r->Ok_0.selected
            == 4),
        key@ == "pixel_orbiting"@ ==> r is Ok && stores_extended(
            r->Ok_0.frame@,
            0x34,
            choice_code(ChoiceSetting::PixelOrbiting, r->Ok_0.selected as int) as int,
        ) && (selected < 4 ==> r->Ok_0.selected == selected) && (selected >= 4 ==> r->Ok_0.selected
            == 3),
        key@ == "screen_saver"@ ==> r is Ok && stores_extended(
            r->Ok_0.frame@,
            0x35,
            choice_code(ChoiceSetting::ScreenSaver, r->Ok_0.selected as int) as int,
        ) && (selected < 3 ==> r->Ok_0.selected == selected) && (selected >= 3 ==> r->Ok_0.selected
            == 2),
        key@ == "crosshair"@ ==> r is Ok && stores_extended(
            r->Ok_0.frame@,
            0x04,
            choice_code(ChoiceSetting::Crosshair, r->Ok_0.selected as int) as int,
        ) && (selected < 3 ==> r->Ok_0.selected == selected) && (selected >= 3 ==> r->Ok_0.selected
            == 2),
        key@ == "smart_response"@ ==> r is Ok && stores_standard(
            r->Ok_0.frame@,
            0xeb,
            choice_code(ChoiceSetting::SmartResponse, r->Ok_0.selected as int) as int,
        ) && (selected < 4 ==> r->Ok_0.selected == selected) && (selected >= 4 ==> r->Ok_0.selected
            == 3),
        key@ == "osd_transparency"@ ==> r is Ok && stores_extended(
            r->Ok_0.frame@,
            0x10,
            choice_code(ChoiceSetting::OsdTransparency, r->Ok_0.selected as int) as int,
        ) && (selected < 5 ==> r->Ok_0.selected == selected) && (selected >= 5 ==> r->Ok_0.selected
            == 4),
        key@ == "osd_timeout"@ ==> r is Ok && stores_extended(
            r->Ok_0.frame@,
            0x11,
            choice_code(ChoiceSetting::OsdTimeout, r->Ok_0.selected as int) as int,
        ) && (selected < 5 ==> r->Ok_0.selected == selected) && (selected >= 5 ==> r->Ok_0.selected
            == 4),
        key@ == "osd_language"@ ==> r is Ok && stores_standard(
            r->Ok_0.frame@,
            0xcc,
            choice_code(ChoiceSetting::OsdLanguage, r->Ok_0.selected as int) as int,
        ) && (selected < 21 ==> r->Ok_0.selected == selected) && (selected >= 21
            ==> r->Ok_0.selected
            == 20),
        key@ == "usb_c_setting"@ ==> r is Ok && stores_extended(
            r->Ok_0.frame@,
            0x12,
            choice_code(ChoiceSetting::UsbCSetting, r->Ok_0.selected as int) as int,
        ) && (selected < 2 ==> r->Ok_0.selected == selected) && (selected >= 2 ==> r->Ok_0.selected
            == 1),
        key@ == "kvm"@ ==> r is Ok && stores_extended(
            r->Ok_0.frame@,
            0x15,
            choice_code(ChoiceSetting::Kvm, r->Ok_0.selected as int) as int,
        ) && (selected < 3 ==> r->Ok_0.selected == selected) && (selected >= 3 ==> r->Ok_0.selected
            == 2),
        r is Ok ==> key@ == "input_source"@ || key@ == "smart_image"@
            || key@ == "color_temperature"@ || key@ == "gamma"@ || key@ == "pixel_orbiting"@
            || key@ == "screen_saver"@ || key@ == "crosshair"@ || key@ == "smart_response"@
            || key@ == "osd_transparency"@ || key@ == "osd_timeout"@ || key@ == "osd_language"@
            || key@ == "usb_c_setting"@ || key@ == "kvm"@,
{
    lemma_choice_keys();
}

/// A control is asked for under the code that it is stored under.
pub proof fn requests_have_their_codes(s: Setting, frame: Vec<u8>)
    requires
        call_ensures(PhilipsEvnia49::read_request, (s,), frame),
    ensures
        match s {
            Setting::Range(RangeSetting::Brightness) => asks_standard(frame@, 0x10),
            Setting::Range(RangeSetting::Contrast) => asks_standard(frame@, 0x12),
            Setting::Range(RangeSetting::Volume) => asks_standard(frame@, 0x62),
            Setting::Range(RangeSetting::Sharpness) => asks_standard(frame@, 0x87),
            Setting::Range(RangeSetting::LightEnhancement) => asks_extended(frame@, 0x3d),
            Setting::Range(RangeSetting::ColorEnhancement) => asks_extended(frame@, 0x3e),
            Setting::Range(RangeSetting::OsdHPosition) => asks_extended(frame@, 0x0e),
            Setting::Range(RangeSetting::OsdVPosition) => asks_extended(frame@, 0x0f),
            Setting::Range(RangeSetting::PowerLed) => asks_standard(frame@, 0xf2),
            Setting::Boolean(BooleanSetting::AdaptiveSync) => asks_extended(frame@, 0x40),
            Setting::Boolean(BooleanSetting::LowInputLag) => asks_extended(frame@, 0x07),
            Setting::Boolean(BooleanSetting::AudioMute) => asks_standard(frame@, 0x8d),
            Setting::Boolean(BooleanSetting::ResolutionNotice) => asks_standard(frame@, 0xe9),
            Setting::Boolean(BooleanSetting::UsbStandby) => asks_extended(frame@, 0x13),
            Setting::Boolean(BooleanSetting::SmartPower) => asks_extended(frame@, 0x16),
            Setting::Boolean(BooleanSetting::Cec) => asks_extended(frame@, 0x17),
            Setting::Boolean(BooleanSetting::AutoWarning) => asks_extended(frame@, 0x43),
            Setting::Boolean(BooleanSetting::Srgb) => asks_extended(frame@, 0x20),
            Setting::Choice(ChoiceSetting::InputSource) => asks_standard(frame@, 0x60),
            Setting::Choice(ChoiceSetting::SmartImage) => asks_standard(frame@, 0xdc),
            Setting::Choice(ChoiceSetting::ColorTemperature) => asks_standard(frame@, 0x14),
            Setting::Choice(ChoiceSetting::Gamma) => asks_standard(frame@, 0x72),
            Setting::Choice(ChoiceSetting::PixelOrbiting) => asks_extended(frame@, 0x34),
            Setting::Choice(ChoiceSetting::ScreenSaver) => asks_extended(frame@, 0x35),
            Setting::Choice(ChoiceSetting::Crosshair) => asks_extended(frame@, 0x04),
            Setting::Choice(ChoiceSetting::SmartResponse) => asks_standard(frame@, 0xeb),
            Setting::Choice(ChoiceSetting::OsdTransparency) => asks_extended(frame@, 0x10),
            Setting::Choice(ChoiceSetting::OsdTimeout) => asks_extended(frame@, 0x11),
            Setting::Choice(ChoiceSetting::OsdLanguage) => asks_standard(frame@, 0xcc),
            Setting::Choice(ChoiceSetting::UsbCSetting) => asks_extended(frame@, 0x12),
            Setting::Choice(ChoiceSetting::Kvm) => asks_extended(frame@, 0x15),
        },
{
}

/// A slider whose frame went out is shown at the stored value under its key, and the others
/// stay as they are.
pub proof fn stored_sliders_are_shown(
    m: &mut PhilipsEvnia49,
    key: &str,
    value: i32,
    c: RangeChange,
    n: int,
)
    requires
        call_ensures(PhilipsEvnia49::set_range, (old(m), key, value), Ok(c)),
        call_ensures(PhilipsEvnia49::range_written, (m, &c), ()),
        0 <= n < 9,
    ensures
        ({
            let before = old(m).range_controls()[n];
            let after = final(m).range_controls()[n];
            &&& after.key == before.key && after.label == before.label && after.min == 0
                && after.max
                == before.max
            &&& key@ == before.key@ ==> after.value == c.value
            &&& key@ != before.key@ ==> after.value == before.value
            &&& key@ == before.key@ && 0 <= value <= before.max ==> after.value == value
        }),
        final(m).boolean_controls("", "") == old(m).boolean_controls("", ""),
{
    lemma_range_keys();
    reveal_strlit("brightness");
    reveal_strlit("contrast");
    reveal_strlit("volume");
    reveal_strlit("sharpness");
    reveal_strlit("light_enhancement");
    reveal_strlit("color_enhancement");
    reveal_strlit("osd_h_position");
    reveal_strlit("osd_v_position");
    reveal_strlit("power_led");
    assert("brightness"@.len() == 10 && "contrast"@.len() == 8 && "volume"@.len() == 6
        && "sharpness"@.len() == 9 && "light_enhancement"@.len() == 17
        && "color_enhancement"@.len() == 17 && "osd_h_position"@.len() == 14
        && "osd_v_position"@.len() == 14 && "power_led"@.len() == 9);
    assert("color_enhancement"@[0] == 'c' && "light_enhancement"@[0] == 'l'
        && "osd_h_position"@[4] == 'h' && "osd_v_position"@[4] == 'v' && "power_led"@[0] == 'p'
        && "sharpness"@[0] == 's');
}

/// A switch whose frame went out is shown in the stored position under its key, and the
/// others stay as they are.
pub proof fn stored_switches_are_shown(
    m: &mut PhilipsEvnia49,
    key: &str,
    on: bool,
    c: BooleanChange,
    n: int,
)
    requires
        call_ensures(PhilipsEvnia49::set_boolean, (old(m), key, on), Ok(c)),
        call_ensures(PhilipsEvnia49::boolean_written, (m, &c), ()),
        0 <= n < 9,
    ensures
        ({
            let before = old(m).boolean_controls("", "")[n];
            let after = final(m).boolean_controls("", "")[n];
            &&& after.key == before.key && after.label == before.label && !after.read_only
            &&& key@ == before.key@ ==> after.value == on
            &&& key@ != before.key@ ==> after.value == before.value
        }),
        final(m).range_controls() == old(m).range_controls(),
{
    lemma_boolean_keys();
    reveal_strlit("adaptive_sync");
    reveal_strlit("low_input_lag");
    reveal_strlit("audio_mute");
    reveal_strlit("resolution_notice");
    reveal_strlit("usb_standby");
    reveal_strlit("smart_power");
    reveal_strlit("cec");
    reveal_strlit("auto_warning");
    reveal_strlit("srgb");
    assert("adaptive_sync"@.len() == 13 && "low_input_lag"@.len() == 13
        && "audio_mute"@.len() == 10 && "resolution_notice"@.len() == 17
        && "usb_standby"@.len() == 11 && "smart_power"@.len() == 11 && "cec"@.len() == 3
        && "auto_warning"@.len() == 12 && "srgb"@.len() == 4);
    assert("adaptive_sync"@[0] == 'a' && "low_input_lag"@[0] == 'l' && "smart_power"@[0] == 's'
        && "usb_standby"@[0] == 'u');
}

/// A selection whose frame went out is shown at the stored position under its key, and the
/// others stay as they are.
#[verifier::rlimit(60)]
#[verifier::spinoff_prover]
pub proof fn stored_selections_are_shown(
    m: &mut PhilipsEvnia49,
    key: &str,
    selected: usize,
    c: ChoiceChange,
    n: int,
)
    requires
        call_ensures(PhilipsEvnia49::set_choice, (old(m), key, selected), Ok(c)),
        call_ensures(PhilipsEvnia49::choice_written, (m, &c), ()),
        0 <= n < 13,
    ensures
        ({
            let before = old(m).choice_model(n);
            let after = final(m).choice_model(n);
            &&& after.0 == before.0 && after.1 == before.1 && after.2 == before.2
                && after.3 == before.3
            &&& key@ == before.0@ && selected < before.3.len() ==> after.4 == selected
            &&& key@ != before.0@ ==> after.4 == before.4
        }),
        final(m).range_controls() == old(m).range_controls(),
{
    lemma_choice_keys();
    reveal_strlit("input_source");
    reveal_strlit("smart_image");
    reveal_strlit("color_temperature");
    reveal_strlit("gamma");
    reveal_strlit("pixel_orbiting");
    reveal_strlit("screen_saver");
    reveal_strlit("crosshair");
    reveal_strlit("smart_response");
    reveal_strlit("osd_transparency");
    reveal_strlit("osd_timeout");
    reveal_strlit("osd_language");
    reveal_strlit("usb_c_setting");
    reveal_strlit("kvm");
    assert("input_source"@.len() == 12 && "smart_image"@.len() == 11
        && "color_temperature"@.len() == 17 && "gamma"@.len() == 5
        && "pixel_orbiting"@.len() == 14 && "screen_saver"@.len() == 12 && "crosshair"@.len() == 9
        && "smart_response"@.len() == 14 && "osd_transparency"@.len() == 16
        && "osd_timeout"@.len() == 11 && "osd_language"@.len() == 12
        && "usb_c_setting"@.len() == 13 && "kvm"@.len() == 3);
    assert("input_source"@[0] == 'i' && "osd_language"@[0] == 'o' && "osd_timeout"@[0] == 'o'
        && "pixel_orbiting"@[0] == 'p' && "screen_saver"@[0] == 's' && "smart_image"@[0] == 's'
        && "smart_response"@[0] == 's');
    let (a, b, c, d, e, f, g) = (
        INPUT_PORTS,
        SMART_IMAGE_MODES,
        COLOR_TEMPERATURES,
        GAMMA_VALUES,
        PIXEL_ORBITING_OPTIONS,
        SCREEN_SAVER_OPTIONS,
        OSD_LANGUAGES,
    );
    assert(b@.len() == 17 && c@.len() == 8 && d@.len() == 5 && e@.len() == 4 && f@.len() == 3
        && g@.len() == 21);
}

/// The controls are shown with the values that are remembered for them.
pub proof fn shown_controls_are_the_remembered_ones(m: PhilipsEvnia49)
    ensures
        ({
            let r = m.range_controls();
            &&& r.len() == 9
            &&& r[0].key == "brightness" && r[0].value == m.brightness && r[0].max == 100
            &&& r[1].key == "contrast" && r[1].value == m.contrast && r[1].max == 100
            &&& r[2].key == "volume" && r[2].value == m.volume && r[2].max == 100
            &&& r[3].key == "sharpness" && r[3].value == m.sharpness && r[3].max == 100
            &&& r[4].key == "light_enhancement" && r[4].value == m.light_enhancement
                && r[4].max == 3
            &&& r[5].key == "color_enhancement" && r[5].value == m.color_enhancement
                && r[5].max == 3
            &&& r[6].key == "osd_h_position" && r[6].value == m.osd_h_position && r[6].max == 100
            &&& r[7].key == "osd_v_position" && r[7].value == m.osd_v_position && r[7].max == 100
            &&& r[8].key == "power_led" && r[8].value == m.power_led && r[8].max == 4
        }),
        ({
            let b = m.boolean_controls("", "");
            &&& b.len() == 10
            &&& b[0].key == "adaptive_sync" && b[0].value == m.adaptive_sync
            &&& b[1].key == "low_input_lag" && b[1].value == m.low_input_lag
            &&& b[2].key == "audio_mute" && b[2].value == m.audio_mute
            &&& b[3].key == "resolution_notice" && b[3].value == m.resolution_notice
            &&& b[4].key == "usb_standby" && b[4].value == m.usb_standby
            &&& b[5].key == "smart_power" && b[5].value == m.smart_power
            &&& b[6].key == "cec" && b[6].value == m.cec
            &&& b[7].key == "auto_warning" && b[7].value == m.auto_warning
            &&& b[8].key == "srgb" && b[8].value == m.srgb
            &&& b[9].key == "hdr_active" && b[9].read_only
                && (b[9].value <==> 11 <= m.smart_image <= 15)
        }),
        m.choice_model(0).0 == "input_source" && m.choice_model(0).4 == m.input_source,
        m.choice_model(1).0 == "smart_image" && m.choice_model(1).4 == m.smart_image,
        m.choice_model(2).0 == "color_temperature" && m.choice_model(2).4 == m.color_temperature,
        m.choice_model(3).0 == "gamma" && m.choice_model(3).4 == m.gamma,
        m.choice_model(4).0 == "pixel_orbiting" && m.choice_model(4).4 == m.pixel_orbiting,
        m.choice_model(5).0 == "screen_saver" && m.choice_model(5).4 == m.screen_saver,
        m.choice_model(6).0 == "crosshair" && m.choice_model(6).4 == m.crosshair,
        m.choice_model(7).0 == "smart_response" && m.choice_model(7).4 == m.smart_response,
        m.choice_model(8).0 == "osd_transparency" && m.choice_model(8).4 == m.osd_transparency,
        m.choice_model(9).0 == "osd_timeout" && m.choice_model(9).4 == m.osd_timeout,
        m.choice_model(10).0 == "osd_language" && m.choice_model(10).4 == m.osd_language,
        m.choice_model(11).0 == "usb_c_setting" && m.choice_model(11).4 == m.usb_c_setting,
        m.choice_model(12).0 == "kvm" && m.choice_model(12).4 == m.kvm,
        m.choice_model(6).3 == seq!["Off", "On", "Smart"],
        m.choice_model(7).3 == seq!["Off", "Fast", "Faster", "Fastest"],
        m.choice_model(8).3 == seq!["Off", "1", "2", "3", "4"],
        m.choice_model(9).3 == seq!["5 s", "10 s", "20 s", "30 s", "60 s"],
        m.choice_model(11).3 == seq!["High Resolution (USB 2.0)", "High Data Speed (USB 3.2)"],
        m.choice_model(12).3 == seq!["Auto", "USB Up", "USB-C"],
{
}

/// A reading of a slider is shown as it is, limited to the slider.
pub proof fn slider_readings_are_shown(m: &mut PhilipsEvnia49, s: RangeSetting, raw: u16)
    requires
        call_ensures(PhilipsEvnia49::apply_reading, (m, Setting::Range(s), raw), ()),
    ensures
        raw <= 3 ==> final(m).range_value(s) == raw,
        s is PowerLed ==> final(m).power_led == if raw > 4 { 4 } else { raw as i32 },
        s is LightEnhancement
            ==> final(m).light_enhancement == if raw > 3 { 3 } else { raw as i32 },
        s is ColorEnhancement
            ==> final(m).color_enhancement == if raw > 3 { 3 } else { raw as i32 },
        s is Brightness ==> final(m).brightness == if raw > 100 { 100 } else { raw as i32 },
        s is Contrast ==> final(m).contrast == if raw > 100 { 100 } else { raw as i32 },
        s is Volume ==> final(m).volume == if raw > 100 { 100 } else { raw as i32 },
        s is Sharpness ==> final(m).sharpness == if raw > 100 { 100 } else { raw as i32 },
        s is OsdHPosition ==> final(m).osd_h_position == if raw > 100 { 100 } else { raw as i32 },
        s is OsdVPosition ==> final(m).osd_v_position == if raw > 100 { 100 } else { raw as i32 },
{
}

/// A reading of a switch is on where the monitor says one for the mute and anything but zero
/// for the others.
pub proof fn switch_readings_are_shown(m: &mut PhilipsEvnia49, s: BooleanSetting, raw: u16)
    requires
        call_ensures(PhilipsEvnia49::apply_reading, (m, Setting::Boolean(s), raw), ()),
    ensures
        s is AudioMute ==> (final(m).audio_mute <==> raw == 1),
        s !is AudioMute ==> (final(m).boolean_value(s) <==> raw > 0),
        s is AdaptiveSync ==> final(m).boolean_value(s) == final(m).adaptive_sync,
        s is LowInputLag ==> final(m).boolean_value(s) == final(m).low_input_lag,
        s is AudioMute ==> final(m).boolean_value(s) == final(m).audio_mute,
        s is ResolutionNotice ==> final(m).boolean_value(s) == final(m).resolution_notice,
        s is UsbStandby ==> final(m).boolean_value(s) == final(m).usb_standby,
        s is SmartPower ==> final(m).boolean_value(s) == final(m).smart_power,
        s is Cec ==> final(m).boolean_value(s) == final(m).cec,
        s is AutoWarning ==> final(m).boolean_value(s) == final(m).auto_warning,
        s is Srgb ==> final(m).boolean_value(s) == final(m).srgb,
{
}

/// A reading of a selection with codes is the option that has the code in its low byte, and
/// the first one where none has; a selection without codes reads as the position, limited to
/// its options.
pub proof fn selection_readings_are_shown(
    m: &mut PhilipsEvnia49,
    s: ChoiceSetting,
    raw: u16,
    i: int,
)
    requires
        call_ensures(PhilipsEvnia49::apply_reading, (m, Setting::Choice(s), raw), ()),
        0 <= i < choice_count(s),
    ensures
        raw < 256 && raw == choice_code(s, i) ==> final(m).choice_value(s) == i,
        s is Crosshair || s is SmartResponse || s is OsdTransparency || s is OsdTimeout || s
            is UsbCSetting || s is Kvm ==> (raw >= choice_count(s) ==> final(m).choice_value(s) + 1
            == choice_count(s)),
        s is InputSource ==> final(m).choice_value(s) == final(m).input_source,
        s is SmartImage ==> final(m).choice_value(s) == final(m).smart_image,
        s is ColorTemperature ==> final(m).choice_value(s) == final(m).color_temperature,
        s is Gamma ==> final(m).choice_value(s) == final(m).gamma,
        s is PixelOrbiting ==> final(m).choice_value(s) == final(m).pixel_orbiting,
        s is ScreenSaver ==> final(m).choice_value(s) == final(m).screen_saver,
        s is Crosshair ==> final(m).choice_value(s) == final(m).crosshair,
        s is SmartResponse ==> final(m).choice_value(s) == final(m).smart_response,
        s is OsdTransparency ==> final(m).choice_value(s) == final(m).osd_transparency,
        s is OsdTimeout ==> final(m).choice_value(s) == final(m).osd_timeout,
        s is OsdLanguage ==> final(m).choice_value(s) == final(m).osd_language,
        s is UsbCSetting ==> final(m).choice_value(s) == final(m).usb_c_setting,
        s is Kvm ==> final(m).choice_value(s) == final(m).kvm,
{
    if raw < 256 && raw == choice_code(s, i) {
        set_choice_reads_back(s, i as usize, 0);
    }
}

/// The only button asks the monitor to refresh its pixels.
pub proof fn the_button_refreshes_pixels(
    m: PhilipsEvnia49,
    key: &str,
    r: Result<Vec<u8>, ControlError>,
)
    requires
        call_ensures(PhilipsEvnia49::trigger_action, (&m, key), r),
    ensures
        r is Ok <==> key@ == "pixel_refresh"@,
        r is Ok ==> stores_extended(r->Ok_0@, 0x36, 1),
{
}

/// The device-info strings have these addresses, and those that are not empty are kept each
/// under its own name.
pub proof fn device_info_is_kept_by_name(
    addresses: [[u8; 4]; 5],
    m: &mut PhilipsEvnia49,
    read: DeviceInfo,
    serial: Option<String>,
)
    requires
        call_ensures(PhilipsEvnia49::info_addresses, (), addresses),
        call_ensures(PhilipsEvnia49::read_device_info, (m, read), ()),
        call_ensures(PhilipsEvnia49::hardware_serial, (final(m),), serial),
    ensures
        addresses@[0]@ == seq![0xE9u8, 0x0D, 0x00, 0x00],
        addresses@[1]@ == seq![0xE1u8, 0xE6, 0x06, 0x00],
        addresses@[2]@ == seq![0xE1u8, 0xE6, 0x1D, 0x00],
        addresses@[3]@ == seq![0xE1u8, 0xE8, 0x00, 0x00],
        addresses@[4]@ == seq![0xEFu8, 0x13, 0x00, 0x20],
        read.model is Some && read.model->Some_0@.len() > 0 ==> final(m).info.model == read.model,
        read.firmware is Some && read.firmware->Some_0@.len() > 0 ==> final(m).info.firmware
            == read.firmware,
        read.panel_variant is Some && read.panel_variant->Some_0@.len() > 0
            ==> final(m).info.panel_variant == read.panel_variant,
        read.panel_id is Some && read.panel_id->Some_0@.len() > 0 ==> final(m).info.panel_id
            == read.panel_id,
        read.serial is Some && read.serial->Some_0@.len() > 0
            ==> final(m).info.serial == read.serial
            && serial is Some && serial->Some_0@ == read.serial->Some_0@,
        read.serial is None || read.serial->Some_0@.len() == 0 ==> serial is None,
        final(m).info.model is Some ==> final(m).info.model->Some_0@.len() > 0,
        final(m).info.firmware is Some ==> final(m).info.firmware->Some_0@.len() > 0,
{
}

/// Known device-info strings are listed under their names, in this order.
pub proof fn device_info_is_listed_by_name(m: PhilipsEvnia49, r: Vec<(&'static str, String)>)
    requires
        call_ensures(PhilipsEvnia49::debug_info_extra, (&m,), r),
        m.info.model is Some,
        m.info.firmware is Some,
        m.info.panel_variant is Some,
        m.info.panel_id is Some,
        m.info.serial is Some,
    ensures
        r@.len() == 5,
        r@[0].0 == "model_number" && r@[0].1@ == m.info.model->Some_0@,
        r@[1].0 == "firmware_version" && r@[1].1@ == m.info.firmware->Some_0@,
        r@[2].0 == "panel_variant" && r@[2].1@ == m.info.panel_variant->Some_0@,
        r@[3].0 == "panel_id" && r@[3].1@ == m.info.panel_id->Some_0@,
        r@[4].0 == "serial_number" && r@[4].1@ == m.info.serial->Some_0@,
{
    let l = lines_view(r@);
    assert(l == m.info_lines());
    assert(l.len() == 5);
    assert(l[0] == ("model_number", m.info.model->Some_0@));
    assert(l[1] == ("firmware_version", m.info.firmware->Some_0@));
    assert(l[2] == ("panel_variant", m.info.panel_variant->Some_0@));
    assert(l[3] == ("panel_id", m.info.panel_id->Some_0@));
    assert(l[4] == ("serial_number", m.info.serial->Some_0@));
}

/// HDR is on from the first HDR preset to the last one before `HDR Off`.
pub proof fn hdr_presets_are_told(idx: usize, r: bool)
    requires
        call_ensures(smart_image_is_hdr_active, (idx,), r),
        idx < 17,
    ensures
        r <==> choice_code(ChoiceSetting::SmartImage, idx as int) == 0x21 || choice_code(
            ChoiceSetting::SmartImage,
            idx as int,
        ) == 0x22 || choice_code(ChoiceSetting::SmartImage, idx as int) == 0x23 || choice_code(
            ChoiceSetting::SmartImage,
            idx as int,
        ) == 0x24 || choice_code(ChoiceSetting::SmartImage, idx as int) == 0x30,
{
    let t = SMART_IMAGE_MODES;
    assert(t@[0].0 == 0x00 && t@[1].0 == 0x01 && t@[2].0 == 0x03 && t@[3].0 == 0x04
        && t@[4].0 == 0x05 && t@[5].0 == 0x06 && t@[6].0 == 0x07 && t@[7].0 == 0x08
        && t@[8].0 == 0x0B && t@[9].0 == 0x0E && t@[10].0 == 0x11 && t@[11].0 == 0x21
        && t@[12].0 == 0x22 && t@[13].0 == 0x23 && t@[14].0 == 0x30 && t@[15].0 == 0x24
        && t@[16].0 == 0x20);
}

/// The first entry with the code in the low byte is the one that is found; where no entry
/// has it, the first of the table stands for it.
pub proof fn tables_are_searched_by_low_byte(
    table: &[(u8, &'static str)],
    raw: u16,
    r: usize,
    i: int,
)
    requires
        call_ensures(lookup_index, (table, raw), r),
    ensures
        0 <= i < table@.len() && table@[i].0 == raw % 256 && (forall|j: int|
            0 <= j < i ==> (#[trigger] table@[j]).0 != raw % 256) ==> r == i,
        (forall|j: int| 0 <= j < table@.len() ==> (#[trigger] table@[j]).0 != raw % 256) ==> r == 0,
{
    let codes = table_codes(table@);
    assert forall|j: int| 0 <= j < table@.len() implies #[trigger] codes[j] == table@[j].0 by {}
    if 0 <= i < table@.len() && table@[i].0 == raw % 256 && (forall|j: int|
        0 <= j < i ==> (#[trigger] table@[j]).0 != raw % 256) {
        assert forall|j: int| 0 <= j < i implies codes[j] != (raw % 256) as u8 by {
            assert(table@[j].0 != raw % 256);
        }
        lemma_position(codes, (raw % 256) as u8, 0, i);
    }
    if forall|j: int| 0 <= j < table@.len() ==> (#[trigger] table@[j]).0 != raw % 256 {
        assert forall|j: int| 0 <= j < codes.len() implies codes[j] != (raw % 256) as u8 by {
            assert(table@[j].0 != raw % 256);
        }
        lemma_position(codes, (raw % 256) as u8, 0, codes.len() as int);
    }
}

/// Where a code is found.
proof fn lemma_position(codes: Seq<u8>, code: u8, from: nat, i: int)
    requires
        from <= i <= codes.len(),
        i < codes.len() ==> codes[i] == code,
        forall|j: int| from <= j < i ==> codes[j] != code,
    ensures
        i < codes.len() ==> position_from(codes, code, from) == i,
        i == codes.len() ==> position_from(codes, code, from) == 0,
    decreases i - from,
{
    if from < i {
        assert(codes[from as int] != code);
        lemma_position(codes, code, from + 1, i);
    }
}

/// A full read-back asks for every control once. What comes back for a control is what it
/// shows afterwards, just as a single reading would be; a control that could not be read
/// keeps its value.
pub proof fn read_backs_are_shown(
    m: &mut PhilipsEvnia49,
    one: &mut PhilipsEvnia49,
    list: Vec<Setting>,
    readings: &[Option<u16>],
    i: int,
)
    requires
        call_ensures(refresh_settings, (), list),
        call_ensures(PhilipsEvnia49::refresh_from_monitor, (m, readings), ()),
        0 <= i < list@.len(),
        i < readings@.len(),
        readings@[i] is Some ==> call_ensures(
            PhilipsEvnia49::apply_reading,
            (one, list@[i], readings@[i]->Some_0),
            (),
        ),
    ensures
        list@.len() == 31,
        forall|s: Setting| list@.contains(s),
        readings@[i] is Some ==> setting_value(*final(m), list@[i]) == setting_value(
            *final(one),
            list@[i],
        ),
        readings@[i] is None ==> setting_value(*final(m), list@[i]) == setting_value(
            *old(m),
            list@[i],
        ),
{
    refresh_covers_every_control();
    refresh_applies_each_reading(*old(m), readings@, i);
    if readings@[i] is Some {
        lemma_reading_is_local(*old(one), list@[i], readings@[i]->Some_0, list@[i]);
    }
}

/// A monitor that was not read yet shows sliders half way, effects and volume at rest,
/// every switch off and gamma, language and power light at their usual places.
pub proof fn unread_monitors_show_the_usual(
    m: PhilipsEvnia49,
    r: WireDevice,
    b: Vec<Boolean>,
    i: int,
)
    requires
        call_ensures(PhilipsEvnia49::new, (), m),
        call_ensures(PhilipsEvnia49::serialize, (&m,), r),
        call_ensures(PhilipsEvnia49::get_booleans, (&m,), b),
        0 <= i < 10,
    ensures
        m.id@ == "philips_evnia_49_"@ + hex(0x2109, 4) + "_"@ + hex(0x8884, 4),
        !r.connected && r.serial_number is None,
        m.brightness == 50 && m.contrast == 50 && m.sharpness == 50,
        m.osd_h_position == 50 && m.osd_v_position == 50,
        m.volume == 0 && m.light_enhancement == 0 && m.color_enhancement == 0 && m.power_led == 2,
        !b@[i].value,
        m.gamma == 2 && m.osd_language == 1,
        m.input_source == 0 && m.smart_image == 0 && m.color_temperature == 0,
        m.pixel_orbiting == 0 && m.screen_saver == 0 && m.crosshair == 0 && m.smart_response == 0,
        m.osd_transparency == 0 && m.osd_timeout == 0 && m.usb_c_setting == 0 && m.kvm == 0,
{
}

/// The monitor is shown with its sliders, its switches, its selections and its button, and
/// every switch is the same as when switches are asked for alone.
pub proof fn monitors_are_shown_with_their_controls(
    m: PhilipsEvnia49,
    r: WireDevice,
    b: Vec<Boolean>,
    i: int,
)
    requires
        call_ensures(PhilipsEvnia49::serialize, (&m,), r),
        call_ensures(PhilipsEvnia49::get_booleans, (&m,), b),
        0 <= i < 10,
    ensures
        r.id@ == m.id@ && r.connected == m.protocol.connected,
        r.name == "Philips Evnia 49" && r.vendor == "Philips" && r.model == "49M2C8900",
        r.device_type == DeviceType::Monitor,
        r.serial_number is Some <==> m.info.serial is Some,
        r.serial_number is Some ==> r.serial_number->Some_0@ == m.info.serial->Some_0@,
        b@.len() == 10,
        r.capabilities@[0] matches DeviceCapability::Range(v) && v@ == m.range_controls(),
        r.capabilities@[1] matches DeviceCapability::Boolean(v) && v@.len() == 10 && v@[i].key
            == b@[i].key && v@[i].label == b@[i].label && v@[i].value == b@[i].value
            && v@[i].read_only == b@[i].read_only,
        r.capabilities@[2] matches DeviceCapability::Choice(v) && v@.len() == 13,
        r.capabilities@[3] matches DeviceCapability::Action(v) && v@.len() == 1 && v@[0].key
            == "pixel_refresh",
{
}

} // verus!
