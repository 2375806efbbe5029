//! SteelSeries Arctis Nova Pro Wireless: the headset's state as polled and set, its
//! controls, and the commands that change them.

use crate::steelseries::protocols::steelseries_arctis::{
    at_most, command, level_raw, request, within_ten, ArctisChatMixFields, ArctisPoll,
    ArctisProtocol, ArctisSettingsFields, ArctisStatusFields, Msg, POWER_CHARGING, POWER_OFFLINE,
    POWER_ONLINE,
};
use crate::text::{decimal, decimal_string, owned, push_decimal, same_text};
use crate::types::{
    numbered_options, numerals, options_are, Battery, BatteryStatus, Boolean, CategoryLayout,
    Choice, ChoiceDisplay, ChoiceOption, DeviceCapability, DeviceType, EqBand, EqPreset, Equalizer,
    Range, VisibleWhen, WireDevice,
};
use vstd::prelude::*;

verus! {

/// Supported base stations: vendor, product and model name.
pub const ARCTIS_IDS: [(u16, u16, &'static str); 3] = [
    (0x1038, 0x12E0, "Arctis Nova Pro Wireless"),
    (0x1038, 0x12E5, "Arctis Nova Pro Wireless X"),
    (0x1038, 0x225D, "Arctis Nova Pro Wireless X"),
];

/// Products with a Bluetooth status block.
pub const BT_VARIANT_PIDS: [u16; 2] = [0x12E5, 0x225D];

/// The HID interface that carries the commands.
pub const COMMAND_INTERFACE: i32 = 4;

/// How long polling is held back after a change, in milliseconds.
pub const SUPPRESS_MS: u64 = 3000;

/// Time between two polling passes, in milliseconds.
pub const POLL_INTERVAL_MS: u64 = 250;

/// Wire byte of the editable preset.
pub const EQ_CUSTOM_BYTE: u8 = 0x04;

/// Position of the editable preset.
pub const EQ_CUSTOM_INDEX: usize = 4;

/// The lowest base-station volume in decibels.
pub const STATION_VOL_FLOOR_DB: i32 = -56;

/// Labels of the equalizer bands.
pub const EQ_BAND_LABELS: [&'static str; 10] = [
    "31 Hz",
    "62 Hz",
    "125 Hz",
    "250 Hz",
    "500 Hz",
    "1 kHz",
    "2 kHz",
    "4 kHz",
    "8 kHz",
    "16 kHz",
];

/// Labels of the auto-off timeouts.
pub const AUTO_OFF_LABELS: [&'static str; 7] = [
    "Off",
    "1 min",
    "5 min",
    "10 min",
    "15 min",
    "30 min",
    "60 min",
];

/// Equalizer presets: device byte and label. The bytes are not contiguous.
pub const EQ_PRESETS: [(u8, &'static str); 12] = [
    (0x00, "Flat"),
    (0x01, "Bass Boost"),
    (0x02, "Focus"),
    (0x03, "Smiley"),
    (0x04, "Custom"),
    (0x05, "Apex Legends"),
    (0x07, "Call of Duty: MWII"),
    (0x08, "Call of Duty: Warzone"),
    (0x0c, "FPS Footsteps"),
    (0x0d, "GTA V"),
    (0x0f, "Overwatch 2"),
    (0x10, "PUBG"),
];

/// The curve of each preset, for display; the editable preset has none and its row is
/// not used.
pub const EQ_CURVES: [[i32; 10]; 12] = [
    [0, 0, 0, 0, 0, 0, 0, 0, 0, 0],
    [3500, 5500, 4000, 1000, -1500, -1500, -1000, -1000, -1000, -1000],
    [-5000, -3500, -1000, -3500, -2500, 4000, 6000, 3500, -3500, 0],
    [3000, 3500, 1500, -1500, -4000, -4000, -2500, 1500, 3000, 4000],
    [0, 0, 0, 0, 0, 0, 0, 0, 0, 0],
    [-10000, -6000, 6000, 0, 0, 4000, 0, 6500, 9500, 4000],
    [0, 1500, 6000, 2500, 0, 0, 2000, 1000, 6000, 4000],
    [-10000, -3000, 6000, 0, 2500, 2000, 1500, 1000, 4000, 1500],
    [-10000, -2000, 5000, 4000, 0, -1500, -1500, 1500, 3000, 1500],
    [3000, 7500, 6000, -1500, 0, 1000, 1500, 2500, 3000, 3000],
    [-6000, -4000, 1000, -2000, -1000, 0, 0, 0, 3000, 6000],
    [-10000, -6000, -1000, 0, 2000, 5000, 2500, -4000, 3500, 1500],
];

/// Why a request was refused.
#[derive(Debug, Clone, Copy, PartialEq, Eq, Structural)]
pub enum HeadsetError {
    UnknownKey,
    /// An equalizer curve has ten bands.
    BandCount { got: usize },
    ReadOnly,
}

/// The selections of the headset.
#[derive(Debug, Clone, Copy, PartialEq, Eq, Structural)]
pub enum HeadsetChoice {
    NcMode,
    Sidetone,
    WirelessMode,
    Gain,
    AutoOff,
    SonarEq,
    ScreenMode,
}

/// The sliders of the headset that can be moved.
#[derive(Debug, Clone, Copy, PartialEq, Eq, Structural)]
pub enum HeadsetRange {
    MicVolume,
    MicLedBrightness,
    NcLevel,
}

/// A command to send, and what to remember once it went out.
#[derive(Debug)]
pub struct RangeWrite {
    pub packet: Vec<u8>,
    pub range: HeadsetRange,
    pub value: u8,
}

/// The headset as last polled or set.
#[derive(Debug, Clone, Copy)]
pub struct ArctisStatus {
    pub headset_battery: u8,
    pub slot_battery: u8,
    pub power_status: u8,
    pub mic_muted: bool,
    pub nc_mode: u8,
    pub nc_level: u8,
    pub wireless_mode: u8,
    pub auto_off_raw: u8,
    pub gain: u8,
    pub sidetone: u8,
    pub eq_preset: u8,
    pub eq_bands: [i32; 10],
    /// Polling is held back until this monotonic millisecond.
    pub suppress_until_ms: u64,
    pub chatmix_game: u8,
    pub chatmix_chat: u8,
    pub sonar_eq: u8,
    pub screen_mode: u8,
    pub mic_led_brightness: u8,
    pub mic_volume: u8,
    pub station_volume: u8,
    pub bt_powerup_state: u8,
    pub bt_auto_mute: u8,
    pub bt_power_status: u8,
    pub bt_connection: u8,
    pub bt_wireless_pairing: u8,
    /// Whether a status reply was seen; before that the battery levels mean nothing.
    pub polled: bool,
}

impl ArctisStatus {
    /// What is assumed before the first poll, at `now_ms`.
    pub open spec fn is_assumed(self, now_ms: u64) -> bool {
        &&& self.headset_battery == 0
        &&& self.slot_battery == 0
        &&& self.power_status == POWER_OFFLINE
        &&& !self.mic_muted
        &&& self.nc_mode == 0
        &&& self.nc_level == 0
        &&& self.wireless_mode == 0
        &&& self.auto_off_raw == 0
        &&& self.gain == 0
        &&& self.sidetone == 0
        &&& self.eq_preset == 0
        &&& self.eq_bands@ == Seq::new(10, |i: int| 0i32)
        &&& self.suppress_until_ms == now_ms
        &&& self.chatmix_game == 100
        &&& self.chatmix_chat == 100
        &&& self.sonar_eq == 0
        &&& self.screen_mode == 0
        &&& self.mic_led_brightness == 100
        &&& self.mic_volume == 10
        &&& self.station_volume == 100
        &&& self.bt_powerup_state == 0
        &&& self.bt_auto_mute == 0
        &&& self.bt_power_status == 0
        &&& self.bt_connection == 0
        &&& self.bt_wireless_pairing == 0
        &&& !self.polled
    }

    /// What is assumed before the first poll.
    pub fn new(now_ms: u64) -> (r: Self)
        ensures
            r.is_assumed(now_ms),
    {
        let eq_bands: [i32; 10] = [0i32; 10];
        proof {
            assert(eq_bands@ =~= Seq::new(10, |i: int| 0i32));
        }
        ArctisStatus {
            headset_battery: 0,
            slot_battery: 0,
            power_status: POWER_OFFLINE,
            mic_muted: false,
            nc_mode: 0,
            nc_level: 0,
            wireless_mode: 0,
            auto_off_raw: 0,
            gain: 0,
            sidetone: 0,
            eq_preset: 0,
            eq_bands,
            suppress_until_ms: now_ms,
            chatmix_game: 100,
            chatmix_chat: 100,
            sonar_eq: 0,
            screen_mode: 0,
            mic_led_brightness: 100,
            mic_volume: 10,
            station_volume: 100,
            bt_powerup_state: 0,
            bt_auto_mute: 0,
            bt_power_status: 0,
            bt_connection: 0,
            bt_wireless_pairing: 0,
            polled: false,
        }
    }

    /// Whether every selection lies within its options.
    pub open spec fn wf(self) -> bool {
        &&& self.nc_mode <= 2
        &&& self.sidetone <= 3
        &&& self.wireless_mode <= 1
        &&& self.gain <= 1
        &&& self.auto_off_raw <= 6
        &&& self.sonar_eq <= 1
        &&& self.screen_mode <= 1
    }
}

/// Noise-cancelling modes; the position is the wire value.
pub fn nc_mode_options() -> (r: Vec<ChoiceOption>)
    ensures
        options_are(r@, numerals(3), seq!["Off", "Transparent", "Noise Cancelling"]),
{
    labelled_3("Off", "Transparent", "Noise Cancelling")
}

/// Three numbered options.
fn labelled_3(a: &'static str, b: &'static str, c: &'static str) -> (r: Vec<ChoiceOption>)
    ensures
        options_are(r@, numerals(3), seq![a, b, c]),
{
    let labels: [&'static str; 3] = [a, b, c];
    proof {
        assert(labels@ =~= seq![a, b, c]);
    }
    numbered_options(&labels)
}

/// Two numbered options.
fn labelled_2(a: &'static str, b: &'static str) -> (r: Vec<ChoiceOption>)
    ensures
        options_are(r@, numerals(2), seq![a, b]),
{
    let labels: [&'static str; 2] = [a, b];
    proof {
        assert(labels@ =~= seq![a, b]);
    }
    numbered_options(&labels)
}

/// Four numbered options.
fn labelled_4(a: &'static str, b: &'static str, c: &'static str, d: &'static str) -> (r: Vec<
    ChoiceOption,
>)
    ensures
        options_are(r@, numerals(4), seq![a, b, c, d]),
{
    let labels: [&'static str; 4] = [a, b, c, d];
    proof {
        assert(labels@ =~= seq![a, b, c, d]);
    }
    numbered_options(&labels)
}

/// Whether `p` describes the preset at position `i`: firmware presets carry their curve.
pub open spec fn is_preset(p: EqPreset, i: int) -> bool {
    let byte = EQ_PRESETS@[i].0;
    &&& p.id@ == decimal(byte as nat)
    &&& p.label == EQ_PRESETS@[i].1
    &&& p.is_custom == (byte == EQ_CUSTOM_BYTE)
    &&& p.is_firmware == (byte != EQ_CUSTOM_BYTE)
    &&& if byte == EQ_CUSTOM_BYTE {
        p.bands is None
    } else {
        p.bands is Some && p.bands->Some_0@ == EQ_CURVES@[i]@
    }
}

/// The equalizer presets, in menu order.
pub fn eq_preset_options() -> (r: Vec<EqPreset>)
    ensures
        r@.len() == 12,
        forall|i: int| 0 <= i < 12 ==> is_preset(#[trigger] r@[i], i),
{
    let mut out: Vec<EqPreset> = Vec::new();
    let mut i: usize = 0;
    while i < 12
        invariant
            i <= 12,
            out@.len() == i,
            forall|k: int| 0 <= k < i ==> is_preset(#[trigger] out@[k], k),
        decreases 12 - i,
    {
        let byte: u8 = EQ_PRESETS[i].0;
        let custom = byte == EQ_CUSTOM_BYTE;
        let bands: Option<Vec<i32>> = if custom {
            None
        } else {
            Some(curve(&EQ_CURVES[i]))
        };
        out.push(
            EqPreset {
                id: decimal_string(byte as u64),
                label: EQ_PRESETS[i].1,
                is_custom: custom,
                is_firmware: !custom,
                bands,
            },
        );
        i = i + 1;
    }
    out
}

/// Copies a curve.
fn curve(bands: &[i32; 10]) -> (r: Vec<i32>)
    ensures
        r@ == bands@,
{
    let mut out: Vec<i32> = Vec::new();
    let mut i: usize = 0;
    while i < 10
        invariant
            i <= 10,
            out@ == bands@.take(i as int),
        decreases 10 - i,
    {
        out.push(bands[i]);
        i = i + 1;
        proof {
            assert(out@ =~= bands@.take(i as int));
        }
    }
    proof {
        assert(bands@.take(10) =~= bands@);
    }
    out
}

/// The menu position of a device preset byte at or after `from`; bytes that are not
/// catalogued count as the editable preset.
pub open spec fn preset_from(byte: u8, from: nat) -> nat
    decreases 12 - from,
{
    if from >= 12 {
        EQ_CUSTOM_INDEX as nat
    } else if EQ_PRESETS@[from as int].0 == byte {
        from
    } else {
        preset_from(byte, from + 1)
    }
}

/// The menu position of a device preset byte.
pub open spec fn preset_index(byte: u8) -> nat {
    preset_from(byte, 0)
}

/// The device byte of a menu position; positions past the end are the editable preset.
pub open spec fn preset_byte(index: int) -> u8 {
    if 0 <= index < 12 {
        EQ_PRESETS@[index].0
    } else {
        EQ_CUSTOM_BYTE
    }
}

/// The menu position of a device preset byte; bytes that are not catalogued count as
/// the editable preset.
pub fn eq_preset_index(byte: u8) -> (r: usize)
    ensures
        r == preset_index(byte),
        r < 12,
{
    let mut i: usize = 0;
    while i < 12
        invariant
            i <= 12,
            preset_from(byte, i as nat) == preset_index(byte),
        decreases 12 - i,
    {
        if EQ_PRESETS[i].0 == byte {
            return i;
        }
        i = i + 1;
    }
    EQ_CUSTOM_INDEX
}

/// The device byte of a menu position; positions past the end are the editable preset.
pub fn eq_preset_byte(index: usize) -> (r: u8)
    ensures
        r == preset_byte(index as int),
{
    if index < 12 {
        EQ_PRESETS[index].0
    } else {
        EQ_CUSTOM_BYTE
    }
}

/// The curve that is shown while a preset byte is selected: its own, or the live custom
/// curve for the editable preset.
pub open spec fn shown_curve(byte: u8, custom: Seq<i32>) -> Seq<i32> {
    if EQ_PRESETS@[preset_index(byte) as int].0 == EQ_CUSTOM_BYTE {
        custom
    } else {
        EQ_CURVES@[preset_index(byte) as int]@
    }
}

/// Whether `e` shows the equalizer for a selected preset byte and a custom curve.
pub open spec fn is_equalizer(e: Equalizer, byte: u8, custom: Seq<i32>) -> bool {
    &&& e.selected_preset == preset_index(byte)
    &&& e.editable
    &&& e.presets@.len() == 12
    &&& forall|i: int| 0 <= i < 12 ==> is_preset(#[trigger] e.presets@[i], i)
    &&& e.bands@ == Seq::new(10, |i: int| shown_band(i, byte, custom))
}

/// Band `i` as shown while a preset byte is selected.
pub open spec fn shown_band(i: int, byte: u8, custom: Seq<i32>) -> EqBand {
    EqBand {
        index: i as usize,
        label: EQ_BAND_LABELS@[i],
        min: (-10000) as i32,
        max: 10000,
        step: 500,
        value: shown_curve(byte, custom)[i],
    }
}

/// Describes the equalizer for a selected preset byte and a custom curve. Every preset
/// is editable: the custom one, and those that carry their own bands.
pub fn build_equalizer(preset_byte: u8, custom_bands: &[i32; 10]) -> (r: Equalizer)
    ensures
        is_equalizer(r, preset_byte, custom_bands@),
{
    let presets = eq_preset_options();
    let selected_preset: usize = eq_preset_index(preset_byte);
    let editable = presets[selected_preset].is_custom || presets[selected_preset].bands.is_some();
    let values: [i32; 10] = if presets[selected_preset].is_custom {
        *custom_bands
    } else {
        EQ_CURVES[selected_preset]
    };
    let mut bands: Vec<EqBand> = Vec::new();
    let mut i: usize = 0;
    while i < 10
        invariant
            i <= 10,
            values@ == shown_curve(preset_byte, custom_bands@),
            bands@ == Seq::new(i as nat, |k: int| shown_band(k, preset_byte, custom_bands@)),
        decreases 10 - i,
    {
        bands.push(
            EqBand {
                index: i,
                label: EQ_BAND_LABELS[i],
                min: -10000,
                max: 10000,
                step: 500,
                value: values[i],
            },
        );
        i = i + 1;
        proof {
            assert(bands@ =~= Seq::new(
                i as nat,
                |k: int| shown_band(k, preset_byte, custom_bands@),
            ));
        }
    }
    Equalizer { selected_preset, editable, presets, bands }
}

/// Whether the headset itself is switched on.
pub open spec fn headset_online(power_status: u8) -> bool {
    power_status == POWER_ONLINE || power_status == POWER_CHARGING
}

/// The headset's battery and the one in the base station's slot. The base station is
/// always present; only the headset may be offline, and then its level is not shown.
pub open spec fn batteries(s: ArctisStatus) -> Seq<Battery> {
    seq![
        Battery {
            key: "headset",
            label: "Headset",
            level: if headset_online(s.power_status) {
                s.headset_battery
            } else {
                0
            },
            status: if s.power_status == POWER_CHARGING {
                BatteryStatus::Charging
            } else if headset_online(s.power_status) {
                BatteryStatus::Discharging
            } else {
                BatteryStatus::Unknown
            },
        },
        Battery {
            key: "slot",
            label: "Charging Slot",
            level: s.slot_battery,
            status: BatteryStatus::Discharging,
        },
    ]
}

/// The batteries as shown.
pub fn build_batteries(s: &ArctisStatus) -> (r: Vec<Battery>)
    ensures
        r@ == batteries(*s),
{
    let online = s.power_status == POWER_ONLINE || s.power_status == POWER_CHARGING;
    let r: Vec<Battery> = vec![
        Battery {
            key: "headset",
            label: "Headset",
            level: if online {
                s.headset_battery
            } else {
                0
            },
            status: if s.power_status == POWER_CHARGING {
                BatteryStatus::Charging
            } else if online {
                BatteryStatus::Discharging
            } else {
                BatteryStatus::Unknown
            },
        },
        Battery {
            key: "slot",
            label: "Charging Slot",
            level: s.slot_battery,
            status: BatteryStatus::Discharging,
        },
    ];
    proof {
        assert(r@ =~= batteries(*s));
    }
    r
}

/// A slider of the headset, without its visibility rule.
pub open spec fn slider_at(n: int, s: ArctisStatus) -> (
    &'static str,
    &'static str,
    (i32, i32, i32, i32),
    bool,
    &'static str,
    Option<&'static str>,
    Option<&'static str>,
) {
    if n == 0 {
        ("mic_volume", "Microphone Volume", (1, 10, 1, s.mic_volume as i32), false, "Microphone", None, None)
    } else if n == 1 {
        (
            "mic_led_brightness",
            "LED Brightness",
            (10, 100, 10, s.mic_led_brightness as i32),
            false,
            "Microphone",
            None,
            None,
        )
    } else if n == 2 {
        ("nc_level", "Transparency Level", (1, 10, 1, s.nc_level as i32), false, "Noise Cancelling", None, None)
    } else if n == 3 {
        ("station_volume", "Volume", (0, 100, 1, s.station_volume as i32), true, "Base Station", None, None)
    } else {
        (
            "chatmix",
            "ChatMix",
            (0, 100, 1, chatmix_balance(s.chatmix_game, s.chatmix_chat) as i32),
            true,
            "Audio",
            Some("Media"),
            Some("Chat"),
        )
    }
}

/// The ChatMix balance: 0 is all media, 50 the centre, 100 all chat; halves are cut off
/// towards zero.
pub open spec fn chatmix_balance(game: u8, chat: u8) -> int {
    let twice = chat - game + 100;
    if twice >= 0 {
        twice / 2
    } else {
        -((-twice) / 2)
    }
}

/// Whether `r` is the slider at position `n`. Only the transparency level depends on
/// another control: it applies in transparent mode.
pub open spec fn is_slider(r: Range, n: int, s: ArctisStatus) -> bool {
    let (key, label, (min, max, step, value), read_only, category, start, end) = slider_at(n, s);
    &&& r.key == key
    &&& r.label == label
    &&& r.min == min
    &&& r.max == max
    &&& r.step == step
    &&& r.value == value
    &&& r.read_only == read_only
    &&& r.category == category
    &&& r.start_label == start
    &&& r.end_label == end
    &&& if n == 2 {
        r.visible_when is Some && r.visible_when->Some_0.key == "nc_mode"
            && r.visible_when->Some_0.equals@ == seq![1u32]
    } else {
        r.visible_when is None
    }
}

/// The sliders as shown.
pub fn build_ranges(s: &ArctisStatus) -> (r: Vec<Range>)
    ensures
        r@.len() == 5,
        forall|n: int| 0 <= n < 5 ==> is_slider(#[trigger] r@[n], n, *s),
{
    let twice: i32 = s.chatmix_chat as i32 - s.chatmix_game as i32 + 100;
    let balance: i32 = if twice >= 0 {
        twice / 2
    } else {
        -((-twice) / 2)
    };
    let transparent: Vec<u32> = vec![1u32];
    proof {
        assert(transparent@ =~= seq![1u32]);
    }
    vec![
        Range {
            key: "mic_volume",
            label: "Microphone Volume",
            min: 1,
            max: 10,
            step: 1,
            value: s.mic_volume as i32,
            read_only: false,
            category: "Microphone",
            start_label: None,
            end_label: None,
            visible_when: None,
        },
        Range {
            key: "mic_led_brightness",
            label: "LED Brightness",
            min: 10,
            max: 100,
            step: 10,
            value: s.mic_led_brightness as i32,
            read_only: false,
            category: "Microphone",
            start_label: None,
            end_label: None,
            visible_when: None,
        },
        Range {
            key: "nc_level",
            label: "Transparency Level",
            min: 1,
            max: 10,
            step: 1,
            value: s.nc_level as i32,
            read_only: false,
            category: "Noise Cancelling",
            start_label: None,
            end_label: None,
            visible_when: Some(VisibleWhen { key: "nc_mode", equals: transparent }),
        },
        Range {
            key: "station_volume",
            label: "Volume",
            min: 0,
            max: 100,
            step: 1,
            value: s.station_volume as i32,
            read_only: true,
            category: "Base Station",
            start_label: None,
            end_label: None,
            visible_when: None,
        },
        Range {
            key: "chatmix",
            label: "ChatMix",
            min: 0,
            max: 100,
            step: 1,
            value: balance,
            read_only: true,
            category: "Audio",
            start_label: Some("Media"),
            end_label: Some("Chat"),
            visible_when: None,
        },
    ]
}

/// A read-only indicator.
pub open spec fn indicator(
    key: &'static str,
    label: &'static str,
    value: bool,
    category: &'static str,
) -> Boolean {
    Boolean { key, label, value, read_only: true, category }
}

/// The indicators as shown; Bluetooth ones only where the base station has Bluetooth.
pub open spec fn indicators(s: ArctisStatus, bt_variant: bool) -> Seq<Boolean> {
    let mic = seq![indicator("mic_active", "Microphone", !s.mic_muted, "Microphone")];
    if bt_variant {
        mic.push(indicator("bt_connection", "Bluetooth", s.bt_connection != 0, "Bluetooth")).push(
            indicator("bt_auto_mute", "Auto-Mute", s.bt_auto_mute != 0, "Bluetooth"),
        )
    } else {
        mic
    }
}

/// The indicators as shown. The microphone one is true while the microphone is live.
pub fn build_booleans(s: &ArctisStatus, bt_variant: bool) -> (r: Vec<Boolean>)
    ensures
        r@ == indicators(*s, bt_variant),
{
    let mut out: Vec<Boolean> = vec![
        Boolean {
            key: "mic_active",
            label: "Microphone",
            value: !s.mic_muted,
            read_only: true,
            category: "Microphone",
        },
    ];
    if bt_variant {
        out.push(
            Boolean {
                key: "bt_connection",
                label: "Bluetooth",
                value: s.bt_connection != 0,
                read_only: true,
                category: "Bluetooth",
            },
        );
        out.push(
            Boolean {
                key: "bt_auto_mute",
                label: "Auto-Mute",
                value: s.bt_auto_mute != 0,
                read_only: true,
                category: "Bluetooth",
            },
        );
    }
    proof {
        assert(out@ =~= indicators(*s, bt_variant));
    }
    out
}

/// A byte read as a two's-complement number.
pub open spec fn signed(raw: u8) -> int {
    if raw < 128 {
        raw as int
    } else {
        raw - 256
    }
}

/// The base-station volume in percent that a level in decibels stands for.
pub open spec fn station_percent(raw: u8) -> u8 {
    let above = signed(raw) - STATION_VOL_FLOOR_DB;
    if above <= 0 {
        0
    } else if above >= 56 {
        100
    } else {
        (above * 100 / 56) as u8
    }
}

/// The base-station volume in percent: 0 dB is full volume, the floor is silence.
pub fn station_volume_percent(raw: u8) -> (r: u8)
    ensures
        r == station_percent(raw),
{
    let db: i32 = if raw < 128 {
        raw as i32
    } else {
        raw as i32 - 256
    };
    let above: i32 = db - STATION_VOL_FLOOR_DB;
    if above <= 0 {
        0
    } else if above >= 56 {
        100
    } else {
        (above * 100 / 56) as u8
    }
}

/// The state after a status reply.
pub open spec fn with_status(s: ArctisStatus, f: ArctisStatusFields) -> ArctisStatus {
    ArctisStatus {
        headset_battery: f.headset_battery,
        slot_battery: f.slot_battery,
        power_status: f.power_status,
        mic_muted: f.mic_muted,
        nc_mode: f.nc_mode,
        nc_level: f.nc_level,
        wireless_mode: f.wireless_mode,
        auto_off_raw: f.auto_off_raw,
        mic_led_brightness: f.mic_led_brightness,
        bt_powerup_state: f.bt_powerup_state,
        bt_auto_mute: f.bt_auto_mute,
        bt_power_status: f.bt_power_status,
        bt_connection: f.bt_connection,
        bt_wireless_pairing: f.bt_wireless_pairing,
        polled: true,
        ..s
    }
}

/// Takes over a status reply.
pub fn apply_status_fields(s: &mut ArctisStatus, f: &ArctisStatusFields)
    ensures
        *final(s) == with_status(*old(s), *f),
{
    s.headset_battery = f.headset_battery;
    s.slot_battery = f.slot_battery;
    s.power_status = f.power_status;
    s.mic_muted = f.mic_muted;
    s.nc_mode = f.nc_mode;
    s.nc_level = f.nc_level;
    s.wireless_mode = f.wireless_mode;
    s.auto_off_raw = f.auto_off_raw;
    s.mic_led_brightness = f.mic_led_brightness;
    s.bt_powerup_state = f.bt_powerup_state;
    s.bt_auto_mute = f.bt_auto_mute;
    s.bt_power_status = f.bt_power_status;
    s.bt_connection = f.bt_connection;
    s.bt_wireless_pairing = f.bt_wireless_pairing;
    s.polled = true;
}

/// The state after a settings reply.
pub open spec fn with_settings(s: ArctisStatus, f: ArctisSettingsFields) -> ArctisStatus {
    ArctisStatus {
        gain: f.gain,
        eq_preset: f.eq_preset,
        sidetone: f.sidetone,
        eq_bands: f.eq_bands,
        ..s
    }
}

/// Takes over a settings reply.
pub fn apply_settings_fields(s: &mut ArctisStatus, f: &ArctisSettingsFields)
    ensures
        *final(s) == with_settings(*old(s), *f),
{
    s.gain = f.gain;
    s.eq_preset = f.eq_preset;
    s.sidetone = f.sidetone;
    s.eq_bands = f.eq_bands;
}

/// A level between 1 and 10.
pub open spec fn one_to_ten(v: u8) -> u8 {
    if v < 1 {
        1
    } else {
        at_most(v, 10)
    }
}

/// The state after everything but the ChatMix part of a polling pass.
pub open spec fn with_replies(s: ArctisStatus, p: ArctisPoll) -> ArctisStatus {
    let a = match p.status {
        Some(f) => with_status(s, f),
        None => s,
    };
    let b = match p.settings {
        Some(f) => with_settings(a, f),
        None => a,
    };
    let c = match p.mic_volume_raw {
        Some(v) => ArctisStatus { mic_volume: one_to_ten(v), ..b },
        None => b,
    };
    match p.station_volume_raw {
        Some(v) => ArctisStatus { station_volume: station_percent(v), ..c },
        None => c,
    }
}

/// The state after a polling pass: the last ChatMix notification counts.
pub open spec fn with_poll(s: ArctisStatus, p: ArctisPoll) -> ArctisStatus {
    let a = with_replies(s, p);
    if p.chatmix@.len() > 0 {
        ArctisStatus {
            chatmix_game: p.chatmix@.last().game,
            chatmix_chat: p.chatmix@.last().chat,
            ..a
        }
    } else {
        a
    }
}

/// Takes over a polling pass. Returns the volumes to hand to the media and the chat
/// sink, one pair per ChatMix notification, in order.
pub fn apply_poll(s: &mut ArctisStatus, poll: ArctisPoll) -> (volumes: Vec<ArctisChatMixFields>)
    ensures
        *final(s) == with_poll(*old(s), poll),
        volumes == poll.chatmix,
{
    if let Some(f) = &poll.status {
        apply_status_fields(s, f);
    }
    if let Some(f) = &poll.settings {
        apply_settings_fields(s, f);
    }
    if let Some(level) = poll.mic_volume_raw {
        s.mic_volume = if level < 1 {
            1
        } else if level < 10 {
            level
        } else {
            10
        };
    }
    if let Some(level) = poll.station_volume_raw {
        s.station_volume = station_volume_percent(level);
    }
    let n: usize = poll.chatmix.len();
    if n > 0 {
        dispatch_chatmix(s, &poll.chatmix[n - 1]);
    }
    poll.chatmix
}

/// Takes over one ChatMix notification.
pub fn dispatch_chatmix(s: &mut ArctisStatus, fields: &ArctisChatMixFields)
    ensures
        *final(s) == (ArctisStatus {
            chatmix_game: fields.game,
            chatmix_chat: fields.chat,
            ..*old(s)
        }),
{
    s.chatmix_game = fields.game;
    s.chatmix_chat = fields.chat;
}

/// The selection that a key names.
pub open spec fn choice_named(key: Seq<char>) -> Option<HeadsetChoice> {
    if key == "nc_mode"@ {
        Some(HeadsetChoice::NcMode)
    } else if key == "sidetone"@ {
        Some(HeadsetChoice::Sidetone)
    } else if key == "wireless_mode"@ {
        Some(HeadsetChoice::WirelessMode)
    } else if key == "gain"@ {
        Some(HeadsetChoice::Gain)
    } else if key == "auto_off"@ {
        Some(HeadsetChoice::AutoOff)
    } else if key == "sonar_eq"@ {
        Some(HeadsetChoice::SonarEq)
    } else if key == "screen_mode"@ {
        Some(HeadsetChoice::ScreenMode)
    } else {
        None
    }
}

/// The selection that a key names.
fn choice_by_key(key: &str) -> (r: Option<HeadsetChoice>)
    ensures
        r == choice_named(key@),
{
    if same_text(key, "nc_mode") {
        Some(HeadsetChoice::NcMode)
    } else if same_text(key, "sidetone") {
        Some(HeadsetChoice::Sidetone)
    } else if same_text(key, "wireless_mode") {
        Some(HeadsetChoice::WirelessMode)
    } else if same_text(key, "gain") {
        Some(HeadsetChoice::Gain)
    } else if same_text(key, "auto_off") {
        Some(HeadsetChoice::AutoOff)
    } else if same_text(key, "sonar_eq") {
        Some(HeadsetChoice::SonarEq)
    } else if same_text(key, "screen_mode") {
        Some(HeadsetChoice::ScreenMode)
    } else {
        None
    }
}

/// The slider that a key names.
pub open spec fn range_named(key: Seq<char>) -> Option<HeadsetRange> {
    if key == "mic_volume"@ {
        Some(HeadsetRange::MicVolume)
    } else if key == "mic_led_brightness"@ {
        Some(HeadsetRange::MicLedBrightness)
    } else if key == "nc_level"@ {
        Some(HeadsetRange::NcLevel)
    } else {
        None
    }
}

/// The slider that a key names.
fn range_by_key(key: &str) -> (r: Option<HeadsetRange>)
    ensures
        r == range_named(key@),
{
    if same_text(key, "mic_volume") {
        Some(HeadsetRange::MicVolume)
    } else if same_text(key, "mic_led_brightness") {
        Some(HeadsetRange::MicLedBrightness)
    } else if same_text(key, "nc_level") {
        Some(HeadsetRange::NcLevel)
    } else {
        None
    }
}

/// The highest position of a selection.
pub open spec fn choice_last(c: HeadsetChoice) -> u8 {
    match c {
        HeadsetChoice::NcMode => 2,
        HeadsetChoice::Sidetone => 3,
        HeadsetChoice::AutoOff => 6,
        _ => 1,
    }
}

/// A position limited to the options of a selection.
pub open spec fn limited_choice(c: HeadsetChoice, selected: usize) -> u8 {
    if selected < choice_last(c) {
        selected as u8
    } else {
        choice_last(c)
    }
}

/// A position limited to the options of a selection.
fn limit_choice(c: HeadsetChoice, selected: usize) -> (r: u8)
    ensures
        r == limited_choice(c, selected),
{
    let last: u8 = match c {
        HeadsetChoice::NcMode => 2,
        HeadsetChoice::Sidetone => 3,
        HeadsetChoice::AutoOff => 6,
        _ => 1,
    };
    if selected < last as usize {
        selected as u8
    } else {
        last
    }
}

/// The state with one selection changed.
pub open spec fn with_choice(s: ArctisStatus, c: HeadsetChoice, v: u8) -> ArctisStatus {
    match c {
        HeadsetChoice::NcMode => ArctisStatus { nc_mode: v, ..s },
        HeadsetChoice::Sidetone => ArctisStatus { sidetone: v, ..s },
        HeadsetChoice::WirelessMode => ArctisStatus { wireless_mode: v, ..s },
        HeadsetChoice::Gain => ArctisStatus { gain: v, ..s },
        HeadsetChoice::AutoOff => ArctisStatus { auto_off_raw: v, ..s },
        HeadsetChoice::SonarEq => ArctisStatus { sonar_eq: v, ..s },
        HeadsetChoice::ScreenMode => ArctisStatus { screen_mode: v, ..s },
    }
}

/// Remembers a selection; unknown keys change nothing.
pub fn apply_choice_to_status(key: &str, selected: usize, s: &mut ArctisStatus)
    ensures
        *final(s) == match choice_named(key@) {
            Some(c) => with_choice(*old(s), c, limited_choice(c, selected)),
            None => *old(s),
        },
        old(s).wf() ==> final(s).wf(),
{
    if let Some(c) = choice_by_key(key) {
        let v: u8 = limit_choice(c, selected);
        match c {
            HeadsetChoice::NcMode => {
                s.nc_mode = v;
            },
            HeadsetChoice::Sidetone => {
                s.sidetone = v;
            },
            HeadsetChoice::WirelessMode => {
                s.wireless_mode = v;
            },
            HeadsetChoice::Gain => {
                s.gain = v;
            },
            HeadsetChoice::AutoOff => {
                s.auto_off_raw = v;
            },
            HeadsetChoice::SonarEq => {
                s.sonar_eq = v;
            },
            HeadsetChoice::ScreenMode => {
                s.screen_mode = v;
            },
        }
    }
}

/// The command that makes a selection.
pub open spec fn choice_command(c: HeadsetChoice, selected: usize) -> Seq<u8> {
    let v = limited_choice(c, selected);
    match c {
        HeadsetChoice::NcMode => command(Msg::NcMode, v),
        HeadsetChoice::Sidetone => command(Msg::Sidetone, v),
        HeadsetChoice::WirelessMode => command(Msg::WirelessMode, v),
        HeadsetChoice::Gain => command(Msg::MicGain, (v + 1) as u8),
        HeadsetChoice::AutoOff => command(Msg::AutoOff, v),
        HeadsetChoice::SonarEq => command(Msg::SonarEq, v),
        HeadsetChoice::ScreenMode => command(Msg::ScreenMode, v),
    }
}

/// The limits of a slider.
pub open spec fn range_limits(r: HeadsetRange) -> (u8, u8) {
    match r {
        HeadsetRange::MicVolume => (1, 10),
        HeadsetRange::MicLedBrightness => (10, 100),
        HeadsetRange::NcLevel => (1, 10),
    }
}

/// A value limited to a slider.
pub open spec fn limited_range(r: HeadsetRange, value: i32) -> u8 {
    let (lo, hi) = range_limits(r);
    if value < lo {
        lo
    } else if value > hi {
        hi
    } else {
        value as u8
    }
}

/// The command that moves a slider.
pub open spec fn range_command(r: HeadsetRange, v: u8) -> Seq<u8> {
    match r {
        HeadsetRange::MicVolume => command(Msg::MicVolume, v),
        HeadsetRange::MicLedBrightness => command(Msg::MicLedBrightness, v / 10),
        HeadsetRange::NcLevel => command(Msg::NcLevel, v),
    }
}

/// The state with one slider moved.
pub open spec fn with_range(s: ArctisStatus, r: HeadsetRange, v: u8) -> ArctisStatus {
    match r {
        HeadsetRange::MicVolume => ArctisStatus { mic_volume: v, ..s },
        HeadsetRange::MicLedBrightness => ArctisStatus { mic_led_brightness: v, ..s },
        HeadsetRange::NcLevel => ArctisStatus { nc_level: v, ..s },
    }
}

/// Selections that the headset never reports back, and that are set again on start-up.
/// All others are left to the headset's own memory.
pub fn restores_choice(key: &str) -> (r: bool)
    ensures
        r == (key@ == "sonar_eq"@ || key@ == "screen_mode"@),
{
    same_text(key, "sonar_eq") || same_text(key, "screen_mode")
}

/// Sliders that the headset never reports back, and that are set again on start-up.
pub fn restores_range(key: &str) -> (r: bool)
    ensures
        r == (key@ == "mic_volume"@),
{
    same_text(key, "mic_volume")
}

/// The model that a product id stands for, searched from position `i` on.
pub open spec fn model_from(pid: u16, i: nat) -> Option<int>
    decreases 3 - i,
{
    if i >= 3 {
        None
    } else if ARCTIS_IDS@[i as int].1 == pid {
        Some(i as int)
    } else {
        model_from(pid, i + 1)
    }
}

/// Whether a HID interface is the command interface of a supported base station.
pub fn matches_hid(vid: u16, pid: u16, interface: Option<i32>) -> (r: bool)
    ensures
        r == (interface == Some(COMMAND_INTERFACE) && exists|i: int|
            0 <= i < 3 && (#[trigger] ARCTIS_IDS@[i]).0 == vid && ARCTIS_IDS@[i].1 == pid),
{
    match interface {
        Some(n) => if n != COMMAND_INTERFACE {
            return false;
        },
        None => return false,
    }
    let mut i: usize = 0;
    while i < 3
        invariant
            i <= 3,
            interface == Some(COMMAND_INTERFACE),
            forall|k: int|
                0 <= k < i ==> !((#[trigger] ARCTIS_IDS@[k]).0 == vid && ARCTIS_IDS@[k].1 == pid),
        decreases 3 - i,
    {
        if ARCTIS_IDS[i].0 == vid && ARCTIS_IDS[i].1 == pid {
            proof {
                assert(ARCTIS_IDS@[i as int].0 == vid);
            }
            return true;
        }
        i = i + 1;
    }
    false
}

/// The headset with its base station.
#[derive(Debug)]
pub struct ArctisNovaProWireless {
    pub id: String,
    pub model_name: &'static str,
    pub vid: u16,
    pub pid: u16,
    pub bt_variant: bool,
    pub protocol: ArctisProtocol,
    pub status: ArctisStatus,
    /// The last equalizer choice made through this driver: preset byte and curve.
    pub eq_cache: Option<(u8, [i32; 10])>,
}

impl ArctisNovaProWireless {
    /// A headset on the base station with the given product id, the `index`-th of its
    /// kind.
    pub fn new(pid: u16, index: usize, now_ms: u64) -> (r: Self)
        ensures
            r.id@ == "steelseries_arctis_"@ + decimal(index as nat),
            match model_from(pid, 0) {
                Some(i) => 0 <= i < 3 && r.vid == ARCTIS_IDS@[i].0 && r.model_name == ARCTIS_IDS@[i].2,
                None => r.vid == 0x1038 && r.model_name == "Arctis Nova Pro Wireless",
            },
            r.pid == pid,
            r.bt_variant == BT_VARIANT_PIDS@.contains(pid),
            r.eq_cache is None,
            r.status.wf(),
            r.status.is_assumed(now_ms),
    {
        let mut id = owned("steelseries_arctis_");
        push_decimal(&mut id, index as u64);
        let mut vid: u16 = 0x1038;
        let mut model_name: &'static str = "Arctis Nova Pro Wireless";
        let mut i: usize = 0;
        while i < 3
            invariant_except_break
                i <= 3,
                model_from(pid, i as nat) == model_from(pid, 0),
                vid == 0x1038,
                model_name == "Arctis Nova Pro Wireless",
            ensures
                match model_from(pid, 0) {
                    Some(n) => 0 <= n < 3 && vid == ARCTIS_IDS@[n].0 && model_name == ARCTIS_IDS@[n].2,
                    None => vid == 0x1038 && model_name == "Arctis Nova Pro Wireless",
                },
            decreases 3 - i,
        {
            if ARCTIS_IDS[i].1 == pid {
                vid = ARCTIS_IDS[i].0;
                model_name = ARCTIS_IDS[i].2;
                break;
            }
            i = i + 1;
        }
        proof {
            assert(BT_VARIANT_PIDS@[0] == 0x12E5);
            assert(BT_VARIANT_PIDS@[1] == 0x225D);
        }
        ArctisNovaProWireless {
            id,
            model_name,
            vid,
            pid,
            bt_variant: pid == BT_VARIANT_PIDS[0] || pid == BT_VARIANT_PIDS[1],
            protocol: ArctisProtocol::new(),
            status: ArctisStatus::new(now_ms),
            eq_cache: None,
        }
    }

    /// Whether a polling pass is due, or held back because a change is still settling.
    pub fn suppressed(&self, now_ms: u64) -> (r: bool)
        ensures
            r == (self.status.suppress_until_ms > now_ms),
    {
        self.status.suppress_until_ms > now_ms
    }

    /// Holds polling back after a change.
    pub fn suppress(&mut self, now_ms: u64)
        requires
            now_ms + SUPPRESS_MS <= u64::MAX,
        ensures
            *final(self) == (ArctisNovaProWireless {
                status: ArctisStatus {
                    suppress_until_ms: (now_ms + SUPPRESS_MS) as u64,
                    ..old(self).status
                },
                ..*old(self)
            }),
    {
        self.status.suppress_until_ms = now_ms + SUPPRESS_MS;
    }

    /// Makes a selection: remembers it at once, because the headset takes it even if
    /// what follows fails, and returns the command to send.
    pub fn set_choice(&mut self, key: &str, selected: usize) -> (r: Result<Vec<u8>, HeadsetError>)
        ensures
            match choice_named(key@) {
                Some(c) => {
                    &&& r is Ok
                    &&& r->Ok_0@ == choice_command(c, selected)
                    &&& *final(self) == (ArctisNovaProWireless {
                        status: with_choice(old(self).status, c, limited_choice(c, selected)),
                        ..*old(self)
                    })
                },
                None => r == Err::<Vec<u8>, HeadsetError>(HeadsetError::UnknownKey) && *final(self)
                    == *old(self),
            },
    {
        let packet = match choice_by_key(key) {
            Some(c) => {
                let v: u8 = limit_choice(c, selected);
                match c {
                    HeadsetChoice::NcMode => self.protocol.send_nc_mode(v),
                    HeadsetChoice::Sidetone => self.protocol.send_sidetone(v),
                    HeadsetChoice::WirelessMode => self.protocol.send_wireless_mode(v),
                    HeadsetChoice::Gain => self.protocol.send_mic_gain(selected != 0),
                    HeadsetChoice::AutoOff => self.protocol.send_auto_off(v),
                    HeadsetChoice::SonarEq => self.protocol.send_sonar_eq(selected != 0),
                    HeadsetChoice::ScreenMode => self.protocol.send_screen_mode(selected != 0),
                }
            },
            None => return Err(HeadsetError::UnknownKey),
        };
        apply_choice_to_status(key, selected, &mut self.status);
        Ok(packet)
    }

    /// The command that moves a slider, and the value to remember once it went out.
    pub fn set_range(&self, key: &str, value: i32) -> (r: Result<RangeWrite, HeadsetError>)
        ensures
            match range_named(key@) {
                Some(s) => {
                    &&& r is Ok
                    &&& r->Ok_0.range == s
                    &&& r->Ok_0.value == limited_range(s, value)
                    &&& r->Ok_0.packet@ == range_command(s, limited_range(s, value))
                },
                None => r == Err::<RangeWrite, HeadsetError>(HeadsetError::UnknownKey),
            },
    {
        match range_by_key(key) {
            Some(s) => {
                let (lo, hi): (u8, u8) = match s {
                    HeadsetRange::MicVolume => (1, 10),
                    HeadsetRange::MicLedBrightness => (10, 100),
                    HeadsetRange::NcLevel => (1, 10),
                };
                let v: u8 = if value < lo as i32 {
                    lo
                } else if value > hi as i32 {
                    hi
                } else {
                    value as u8
                };
                let packet = match s {
                    HeadsetRange::MicVolume => self.protocol.send_mic_volume(v),
                    HeadsetRange::MicLedBrightness => self.protocol.send_mic_led_brightness(v),
                    HeadsetRange::NcLevel => self.protocol.send_nc_level(v),
                };
                Ok(RangeWrite { packet, range: s, value: v })
            },
            None => Err(HeadsetError::UnknownKey),
        }
    }

    /// Remembers a slider whose command went out.
    pub fn range_written(&mut self, w: &RangeWrite)
        ensures
            *final(self) == (ArctisNovaProWireless {
                status: with_range(old(self).status, w.range, w.value),
                ..*old(self)
            }),
    {
        match w.range {
            HeadsetRange::MicVolume => {
                self.status.mic_volume = w.value;
            },
            HeadsetRange::MicLedBrightness => {
                self.status.mic_led_brightness = w.value;
            },
            HeadsetRange::NcLevel => {
                self.status.nc_level = w.value;
            },
        }
    }

    /// Indicators cannot be set.
    pub fn set_boolean(&self, _key: &str, _value: bool) -> (r: Result<Vec<u8>, HeadsetError>)
        ensures
            r == Err::<Vec<u8>, HeadsetError>(HeadsetError::ReadOnly),
    {
        Err(HeadsetError::ReadOnly)
    }

    /// The indicators as shown.
    pub fn get_booleans(&self) -> (r: Vec<Boolean>)
        ensures
            r@ == indicators(self.status, self.bt_variant),
    {
        build_booleans(&self.status, self.bt_variant)
    }

    /// The batteries as shown.
    pub fn get_batteries(&self) -> (r: Vec<Battery>)
        ensures
            r@ == batteries(self.status),
    {
        build_batteries(&self.status)
    }

    /// The equalizer as shown.
    pub fn get_equalizer(&self) -> (r: Equalizer)
        ensures
            is_equalizer(r, self.status.eq_preset, self.status.eq_bands@),
    {
        build_equalizer(self.status.eq_preset, &self.status.eq_bands)
    }

    /// The command that selects a preset by its menu position.
    pub fn set_eq_preset(&self, preset_index: usize) -> (r: Vec<u8>)
        ensures
            r@ == command(Msg::EqPreset, preset_byte(preset_index as int)),
    {
        self.protocol.send_eq_preset(eq_preset_byte(preset_index))
    }

    /// Remembers a preset whose command went out.
    pub fn eq_preset_written(&mut self, preset_index: usize)
        ensures
            *final(self) == (ArctisNovaProWireless {
                status: ArctisStatus {
                    eq_preset: preset_byte(preset_index as int),
                    ..old(self).status
                },
                eq_cache: Some((preset_byte(preset_index as int), old(self).status.eq_bands)),
                ..*old(self)
            }),
    {
        let byte: u8 = eq_preset_byte(preset_index);
        self.status.eq_preset = byte;
        self.eq_cache = Some((byte, self.status.eq_bands));
    }

    /// The two commands that write a custom curve: select the editable preset, then send
    /// the levels.
    pub fn set_eq_bands(&self, levels: &[i32]) -> (r: Result<(Vec<u8>, Vec<u8>), HeadsetError>)
        ensures
            levels@.len() != 10 ==> r == Err::<(Vec<u8>, Vec<u8>), HeadsetError>(
                HeadsetError::BandCount { got: levels@.len() as usize },
            ),
            levels@.len() == 10 ==> {
                &&& r is Ok
                &&& r->Ok_0.0@ == command(Msg::EqPreset, EQ_CUSTOM_BYTE)
                &&& r->Ok_0.1@ == request(Msg::EqBands) + Seq::new(
                    10,
                    |i: int| level_raw(within_ten(levels@[i] as int)),
                )
            },
    {
        if levels.len() != 10 {
            return Err(HeadsetError::BandCount { got: levels.len() });
        }
        let select = self.protocol.send_eq_preset(EQ_CUSTOM_BYTE);
        let bands = self.protocol.send_eq_bands(levels);
        Ok((select, bands))
    }

    /// Remembers a custom curve whose commands went out.
    pub fn eq_bands_written(&mut self, levels: &[i32])
        requires
            levels@.len() == 10,
        ensures
            final(self).status.eq_bands@ == Seq::new(
                10,
                |i: int| within_ten(levels@[i] as int) as i32,
            ),
            final(self).eq_cache == Some((EQ_CUSTOM_BYTE, final(self).status.eq_bands)),
            *final(self) == (ArctisNovaProWireless {
                status: ArctisStatus {
                    eq_preset: EQ_CUSTOM_BYTE,
                    eq_bands: final(self).status.eq_bands,
                    ..old(self).status
                },
                eq_cache: final(self).eq_cache,
                ..*old(self)
            }),
    {
        let mut bands: [i32; 10] = [0i32; 10];
        let mut i: usize = 0;
        while i < 10
            invariant
                i <= 10,
                levels@.len() == 10,
                bands@.len() == 10,
                forall|k: int| 0 <= k < i ==> bands@[k] == within_ten(levels@[k] as int),
            decreases 10 - i,
        {
            let level: i32 = levels[i];
            bands[i] = if level < -10000 {
                -10000
            } else if level > 10000 {
                10000
            } else {
                level
            };
            i = i + 1;
        }
        proof {
            assert(bands@ =~= Seq::new(10, |i: int| within_ten(levels@[i] as int) as i32));
        }
        self.status.eq_preset = EQ_CUSTOM_BYTE;
        self.status.eq_bands = bands;
        self.eq_cache = Some((EQ_CUSTOM_BYTE, bands));
    }

    /// The equalizer as last set through this driver.
    pub fn current_state(&self) -> (r: Option<Equalizer>)
        ensures
            match self.eq_cache {
                Some((byte, bands)) => r is Some && is_equalizer(r->Some_0, byte, bands@),
                None => r is None,
            },
    {
        match &self.eq_cache {
            Some((byte, bands)) => Some(build_equalizer(*byte, bands)),
            None => None,
        }
    }

    /// Key, label, option labels, selection, category and display of the selection shown
    /// at position `n`.
    pub open spec fn choice_model(self, n: int) -> (
        &'static str,
        &'static str,
        Seq<&'static str>,
        usize,
        &'static str,
        ChoiceDisplay,
    ) {
        let s = self.status;
        if n == 0 {
            ("gain", "Microphone Gain", seq!["Low", "High"], s.gain as usize, "Microphone", ChoiceDisplay::Inline)
        } else if n == 1 {
            (
                "sidetone",
                "Sidetone",
                seq!["Off", "Low", "Medium", "High"],
                s.sidetone as usize,
                "Microphone",
                ChoiceDisplay::Inline,
            )
        } else if n == 2 {
            (
                "nc_mode",
                "Mode",
                seq!["Off", "Transparent", "Noise Cancelling"],
                s.nc_mode as usize,
                "Noise Cancelling",
                ChoiceDisplay::Inline,
            )
        } else if n == 3 {
            (
                "wireless_mode",
                "Wireless Mode",
                seq!["Maximum Speed", "Maximum Range"],
                s.wireless_mode as usize,
                "Base Station",
                ChoiceDisplay::Inline,
            )
        } else if n == 4 {
            (
                "auto_off",
                "Auto-Off Timeout",
                AUTO_OFF_LABELS@,
                s.auto_off_raw as usize,
                "Base Station",
                ChoiceDisplay::List,
            )
        } else if n == 5 {
            (
                "screen_mode",
                "Screen Mode",
                seq!["Detailed", "Simple"],
                s.screen_mode as usize,
                "Base Station",
                ChoiceDisplay::Inline,
            )
        } else {
            ("sonar_eq", "Sonar EQ", seq!["Off", "On"], s.sonar_eq as usize, "Audio", ChoiceDisplay::Toggle)
        }
    }

    /// Whether `c` shows the selection at position `n`.
    pub open spec fn is_choice_control(self, c: Choice, n: int) -> bool {
        let (key, label, labels, selected, category, display) = self.choice_model(n);
        &&& c.key == key
        &&& c.label == label
        &&& options_are(c.options@, numerals(labels.len()), labels)
        &&& c.selected == selected
        &&& c.category == category
        &&& c.display == display
    }

    /// The selections as shown.
    fn build_choices(&self) -> (r: Vec<Choice>)
        ensures
            r@.len() == 7,
            forall|n: int| 0 <= n < 7 ==> self.is_choice_control(#[trigger] r@[n], n),
    {
        let s = &self.status;
        let gain = labelled_2("Low", "High");
        let sidetone = labelled_4("Off", "Low", "Medium", "High");
        let nc_mode = nc_mode_options();
        let wireless = labelled_2("Maximum Speed", "Maximum Range");
        let auto_off = numbered_options(&AUTO_OFF_LABELS);
        let screen = labelled_2("Detailed", "Simple");
        let sonar = labelled_2("Off", "On");
        vec![
            Choice {
                key: "gain",
                label: "Microphone Gain",
                options: gain,
                selected: s.gain as usize,
                category: "Microphone",
                display: ChoiceDisplay::Inline,
            },
            Choice {
                key: "sidetone",
                label: "Sidetone",
                options: sidetone,
                selected: s.sidetone as usize,
                category: "Microphone",
                display: ChoiceDisplay::Inline,
            },
            Choice {
                key: "nc_mode",
                label: "Mode",
                options: nc_mode,
                selected: s.nc_mode as usize,
                category: "Noise Cancelling",
                display: ChoiceDisplay::Inline,
            },
            Choice {
                key: "wireless_mode",
                label: "Wireless Mode",
                options: wireless,
                selected: s.wireless_mode as usize,
                category: "Base Station",
                display: ChoiceDisplay::Inline,
            },
            Choice {
                key: "auto_off",
                label: "Auto-Off Timeout",
                options: auto_off,
                selected: s.auto_off_raw as usize,
                category: "Base Station",
                display: ChoiceDisplay::List,
            },
            Choice {
                key: "screen_mode",
                label: "Screen Mode",
                options: screen,
                selected: s.screen_mode as usize,
                category: "Base Station",
                display: ChoiceDisplay::Inline,
            },
            Choice {
                key: "sonar_eq",
                label: "Sonar EQ",
                options: sonar,
                selected: s.sonar_eq as usize,
                category: "Audio",
                display: ChoiceDisplay::Toggle,
            },
        ]
    }

    /// Whether `caps` are the controls that follow the batteries.
    pub open spec fn are_controls(self, caps: Seq<DeviceCapability>) -> bool {
        &&& caps.len() == 4
        &&& caps[0] matches DeviceCapability::Boolean(v) && v@ == indicators(
            self.status,
            self.bt_variant,
        )
        &&& caps[1] matches DeviceCapability::Choice(v) && v@.len() == 7 && forall|n: int|
            0 <= n < 7 ==> self.is_choice_control(#[trigger] v@[n], n)
        &&& caps[2] matches DeviceCapability::Range(v) && v@.len() == 5 && forall|n: int|
            0 <= n < 5 ==> is_slider(#[trigger] v@[n], n, self.status)
        &&& caps[3] matches DeviceCapability::Equalizer(e) && is_equalizer(
            e,
            self.status.eq_preset,
            self.status.eq_bands@,
        )
    }

    /// The headset with all its controls. The batteries are shown once they were polled.
    pub fn serialize(&self) -> (r: WireDevice)
        ensures
            r.id@ == self.id@,
            r.name == self.model_name,
            r.vendor == "SteelSeries",
            r.model == self.model_name,
            r.device_type == DeviceType::Headset,
            r.connected,
            r.serial_number is None,
            self.status.polled ==> {
                &&& r.capabilities@.len() == 5
                &&& r.capabilities@[0] matches DeviceCapability::Battery(v) && v@ == batteries(
                    self.status,
                )
                &&& self.are_controls(r.capabilities@.subrange(1, 5))
            },
            !self.status.polled ==> self.are_controls(r.capabilities@),
            r.control_layout@ == seq![
                CategoryLayout { category: "Microphone", order: 0, column: 0, span: 1 },
                CategoryLayout { category: "Noise Cancelling", order: 1, column: 1, span: 1 },
            ],
    {
        let s = &self.status;
        let mut capabilities: Vec<DeviceCapability> = Vec::new();
        if s.polled {
            capabilities.push(DeviceCapability::Battery(build_batteries(s)));
        }
        capabilities.push(DeviceCapability::Boolean(build_booleans(s, self.bt_variant)));
        capabilities.push(DeviceCapability::Choice(self.build_choices()));
        capabilities.push(DeviceCapability::Range(build_ranges(s)));
        capabilities.push(DeviceCapability::Equalizer(self.get_equalizer()));
        let control_layout: Vec<CategoryLayout> = vec![
            CategoryLayout { category: "Microphone", order: 0, column: 0, span: 1 },
            CategoryLayout { category: "Noise Cancelling", order: 1, column: 1, span: 1 },
        ];
        WireDevice {
            id: self.id.clone(),
            name: self.model_name,
            vendor: "SteelSeries",
            model: self.model_name,
            device_type: DeviceType::Headset,
            connected: true,
            serial_number: None,
            capabilities,
            control_layout,
        }
    }

    /// The names of the virtual sinks for media and chat audio.
    pub fn sink_names(&self) -> (r: (String, String))
        ensures
            r.0@ == "SteelSeries "@ + self.model_name@ + " Media"@,
            r.1@ == "SteelSeries "@ + self.model_name@ + " Chat"@,
    {
        let mut media = owned("SteelSeries ");
        media.append(self.model_name);
        media.append(" Media");
        let mut chat = owned("SteelSeries ");
        chat.append(self.model_name);
        chat.append(" Chat");
        (media, chat)
    }
}

/// The search for a preset byte that occurs first at `i` ends there.
proof fn lemma_preset_is(i: nat, from: nat)
    requires
        from <= i < 12,
        forall|k: int| from <= k < i ==> EQ_PRESETS@[k].0 != EQ_PRESETS@[i as int].0,
    ensures
        preset_from(EQ_PRESETS@[i as int].0, from) == i,
    decreases i - from,
{
    if from < i {
        lemma_preset_is(i, from + 1);
    }
}

/// A menu position survives the way to a device byte and back; every position past the
/// end comes back as the editable preset.
pub proof fn preset_round_trips(index: usize)
    ensures
        preset_index(preset_byte(index as int)) == if index < 12 {
            index as int
        } else {
            EQ_CUSTOM_INDEX as int
        },
{
    if index < 12 {
        lemma_preset_is(index as nat, 0);
    } else {
        lemma_preset_is(4, 0);
    }
}

/// The base-station volume is a percentage and grows with the level.
pub proof fn station_volume_is_monotone(a: u8, b: u8)
    requires
        signed(a) <= signed(b),
    ensures
        station_percent(a) <= station_percent(b) <= 100,
{
    let x = signed(a) + 56;
    let y = signed(b) + 56;
    if 0 < x && y < 56 {
        assert(x * 100 / 56 <= y * 100 / 56) by (nonlinear_arith)
            requires
                x <= y,
        ;
    }
}

/// A selection that is made is the one that a later status reply would report: the wire
/// value is the remembered position.
pub proof fn selections_match_the_wire(c: HeadsetChoice, selected: usize)
    requires
        c is NcMode || c is Sidetone || c is WirelessMode || c is AutoOff || c is SonarEq || c
            is ScreenMode,
    ensures
        choice_command(c, selected).last() == limited_choice(c, selected),
        limited_choice(c, selected) <= choice_last(c),
{
}

/// A polling pass keeps every selection within its options.
pub proof fn poll_keeps_wf(
    s: ArctisStatus,
    p: ArctisPoll,
    ps: Seq<Seq<u8>>,
    prefixed: bool,
)
    requires
        s.wf(),
        p.is_outcome(ps, prefixed),
    ensures
        with_poll(s, p).wf(),
{
    lemma_last_status_in_range(ps, prefixed);
}

/// The fields of a status reply lie within their options.
proof fn lemma_last_status_in_range(ps: Seq<Seq<u8>>, prefixed: bool)
    ensures
        crate::steelseries::protocols::steelseries_arctis::last_status(ps, prefixed) matches Some(f)
            ==> f.nc_mode <= 2 && f.wireless_mode <= 1 && f.auto_off_raw <= 6,
    decreases ps.len(),
{
    if ps.len() > 0 {
        lemma_last_status_in_range(ps.drop_last(), prefixed);
    }
}

/// The keys of the selections and sliders are all different.
proof fn lemma_keys_differ()
    ensures
        choice_named("nc_mode"@) == Some(HeadsetChoice::NcMode),
        choice_named("sidetone"@) == Some(HeadsetChoice::Sidetone),
        choice_named("wireless_mode"@) == Some(HeadsetChoice::WirelessMode),
        choice_named("gain"@) == Some(HeadsetChoice::Gain),
        choice_named("auto_off"@) == Some(HeadsetChoice::AutoOff),
        choice_named("sonar_eq"@) == Some(HeadsetChoice::SonarEq),
        choice_named("screen_mode"@) == Some(HeadsetChoice::ScreenMode),
        range_named("mic_volume"@) == Some(HeadsetRange::MicVolume),
        range_named("mic_led_brightness"@) == Some(HeadsetRange::MicLedBrightness),
        range_named("nc_level"@) == Some(HeadsetRange::NcLevel),
        forall|k: Seq<char>|
            choice_named(k) is Some ==> k == "nc_mode"@ || k == "sidetone"@ || k == "wireless_mode"@
                || k == "gain"@ || k == "auto_off"@ || k == "sonar_eq"@ || k == "screen_mode"@,
        forall|k: Seq<char>|
            range_named(k) is Some ==> k == "mic_volume"@ || k == "mic_led_brightness"@ || k
                == "nc_level"@,
        "sidetone"@ != "auto_off"@ && "sidetone"@ != "sonar_eq"@ && "auto_off"@ != "sonar_eq"@,
{
    reveal_strlit("nc_mode");
    reveal_strlit("sidetone");
    reveal_strlit("wireless_mode");
    reveal_strlit("gain");
    reveal_strlit("auto_off");
    reveal_strlit("sonar_eq");
    reveal_strlit("screen_mode");
    reveal_strlit("mic_volume");
    reveal_strlit("mic_led_brightness");
    reveal_strlit("nc_level");
    assert("nc_mode"@.len() == 7 && "sidetone"@.len() == 8 && "wireless_mode"@.len() == 13
        && "gain"@.len() == 4 && "auto_off"@.len() == 8 && "sonar_eq"@.len() == 8
        && "screen_mode"@.len() == 11);
    assert("mic_volume"@.len() == 10 && "mic_led_brightness"@.len() == 18
        && "nc_level"@.len() == 8);
    assert("sidetone"@[1] == 'i' && "auto_off"@[1] == 'u' && "sonar_eq"@[1] == 'o');
}

/// A selection sends the command of the setting that its key names, with the position in
/// the list of options; the gain counts from one. Unknown keys are refused.
pub proof fn selections_send_their_own_command(
    d: &mut ArctisNovaProWireless,
    key: &str,
    selected: usize,
    r: Result<Vec<u8>, HeadsetError>,
)
    requires
        call_ensures(ArctisNovaProWireless::set_choice, (d, key, selected), r),
    ensures
        key@ == "nc_mode"@ ==> r is Ok && r->Ok_0@ == seq![
            0x06u8,
            0xbd,
            if selected > 2 { 2 } else { selected as u8 },
        ],
        key@ == "sidetone"@ ==> r is Ok && r->Ok_0@ == seq![
            0x06u8,
            0x39,
            if selected > 3 { 3 } else { selected as u8 },
        ],
        key@ == "wireless_mode"@ ==> r is Ok && r->Ok_0@ == seq![
            0x06u8,
            0xc3,
            if selected > 0 { 1 } else { 0 },
        ],
        key@ == "gain"@ ==> r is Ok && r->Ok_0@ == seq![
            0x06u8,
            0x27,
            if selected > 0 { 2 } else { 1 },
        ],
        key@ == "auto_off"@ ==> r is Ok && r->Ok_0@ == seq![
            0x06u8,
            0xc1,
            if selected > 6 { 6 } else { selected as u8 },
        ],
        key@ == "sonar_eq"@ ==> r is Ok && r->Ok_0@ == seq![
            0x06u8,
            0x8d,
            if selected > 0 { 1 } else { 0 },
        ],
        key@ == "screen_mode"@ ==> r is Ok && r->Ok_0@ == seq![
            0x06u8,
            0x89,
            if selected > 0 { 1 } else { 0 },
        ],
        r is Ok ==> key@ == "nc_mode"@ || key@ == "sidetone"@ || key@ == "wireless_mode"@ || key@
            == "gain"@ || key@ == "auto_off"@ || key@ == "sonar_eq"@ || key@ == "screen_mode"@,
{
    lemma_keys_differ();
}

/// A selection changes the remembered position of its own setting and nothing else, and the
/// control with its key then shows the selected option.
pub proof fn selections_are_shown(
    d: &mut ArctisNovaProWireless,
    key: &str,
    selected: usize,
    r: Result<Vec<u8>, HeadsetError>,
    n: int,
)
    requires
        call_ensures(ArctisNovaProWireless::set_choice, (d, key, selected), r),
        0 <= n < 7,
    ensures
        ({
            let before = old(d).choice_model(n);
            let after = final(d).choice_model(n);
            &&& after.0 == before.0 && after.1 == before.1 && after.2 == before.2
            &&& key@ != before.0@ ==> after.3 == before.3
            &&& key@ == before.0@ && selected < before.2.len() ==> after.3 == selected && r is Ok
            &&& key@ == before.0@ && selected >= before.2.len() ==> after.3 + 1 == before.2.len()
        }),
        key@ == "nc_mode"@ ==> final(d).status == (ArctisStatus {
            nc_mode: final(d).status.nc_mode,
            ..old(d).status
        }),
        key@ == "sidetone"@ ==> final(d).status == (ArctisStatus {
            sidetone: final(d).status.sidetone,
            ..old(d).status
        }),
        key@ == "gain"@ ==> final(d).status == (ArctisStatus {
            gain: final(d).status.gain,
            ..old(d).status
        }),
        key@ == "auto_off"@ ==> final(d).status == (ArctisStatus {
            auto_off_raw: final(d).status.auto_off_raw,
            ..old(d).status
        }),
        final(d).eq_cache == old(d).eq_cache,
{
    lemma_keys_differ();
    reveal_strlit("nc_mode");
    reveal_strlit("sidetone");
    reveal_strlit("wireless_mode");
    reveal_strlit("gain");
    reveal_strlit("auto_off");
    reveal_strlit("sonar_eq");
    reveal_strlit("screen_mode");
    let labels = AUTO_OFF_LABELS;
    assert(labels@.len() == 7);
}

/// The selections are shown under their keys and with the option labels of their wire
/// values, each with the position that is remembered for it.
pub proof fn shown_selections_are_the_remembered_ones(d: ArctisNovaProWireless)
    ensures
        d.choice_model(0).0 == "gain" && d.choice_model(0).2 == seq!["Low", "High"]
            && d.choice_model(0).3 == d.status.gain,
        d.choice_model(1).0 == "sidetone" && d.choice_model(1).2 == seq![
            "Off",
            "Low",
            "Medium",
            "High",
        ] && d.choice_model(1).3 == d.status.sidetone,
        d.choice_model(2).0 == "nc_mode" && d.choice_model(2).2 == seq![
            "Off",
            "Transparent",
            "Noise Cancelling",
        ] && d.choice_model(2).3 == d.status.nc_mode,
        d.choice_model(3).0 == "wireless_mode" && d.choice_model(3).2 == seq![
            "Maximum Speed",
            "Maximum Range",
        ] && d.choice_model(3).3 == d.status.wireless_mode,
        d.choice_model(4).0 == "auto_off" && d.choice_model(4).3 == d.status.auto_off_raw,
        d.choice_model(4).2 == seq![
            "Off",
            "1 min",
            "5 min",
            "10 min",
            "15 min",
            "30 min",
            "60 min",
        ],
        d.choice_model(5).0 == "screen_mode" && d.choice_model(5).2 == seq!["Detailed", "Simple"]
            && d.choice_model(5).3 == d.status.screen_mode,
        d.choice_model(6).0 == "sonar_eq" && d.choice_model(6).2 == seq!["Off", "On"]
            && d.choice_model(6).3 == d.status.sonar_eq,
{
    let labels = AUTO_OFF_LABELS;
    assert(labels@ =~= seq!["Off", "1 min", "5 min", "10 min", "15 min", "30 min", "60 min"]);
}

/// A slider sends the command of the setting that its key names, its value limited to the
/// slider; the brightness goes out in tenths. Unknown keys are refused.
pub proof fn sliders_send_their_own_command(
    d: ArctisNovaProWireless,
    key: &str,
    value: i32,
    r: Result<RangeWrite, HeadsetError>,
)
    requires
        call_ensures(ArctisNovaProWireless::set_range, (&d, key, value), r),
    ensures
        key@ == "mic_volume"@ ==> r is Ok && r->Ok_0.packet@ == seq![0x06u8, 0x37, r->Ok_0.value]
            && 1 <= r->Ok_0.value <= 10 && (1 <= value <= 10 ==> r->Ok_0.value == value),
        key@ == "nc_level"@ ==> r is Ok && r->Ok_0.packet@ == seq![0x06u8, 0xb9, r->Ok_0.value]
            && 1 <= r->Ok_0.value <= 10 && (1 <= value <= 10 ==> r->Ok_0.value == value),
        key@ == "mic_led_brightness"@ ==> {
            &&& r is Ok && r->Ok_0.packet@.len() == 3
            &&& r->Ok_0.packet@[0] == 0x06 && r->Ok_0.packet@[1] == 0xbf
            &&& 10 * r->Ok_0.packet@[2] <= r->Ok_0.value < 10 * r->Ok_0.packet@[2] + 10
            &&& 10 <= r->Ok_0.value <= 100 && (10 <= value <= 100 ==> r->Ok_0.value == value)
        },
        r is Ok && value < 1 ==> r->Ok_0.value <= 10,
        r is Ok && value > 100 ==> r->Ok_0.value >= 10,
        r is Ok ==> key@ == "mic_volume"@ || key@ == "mic_led_brightness"@ || key@ == "nc_level"@,
{
    lemma_keys_differ();
}

/// A slider whose command went out is shown at the value that was sent; nothing else moves.
pub proof fn sliders_are_shown(
    d: &mut ArctisNovaProWireless,
    key: &str,
    value: i32,
    w: RangeWrite,
    n: int,
)
    requires
        call_ensures(ArctisNovaProWireless::set_range, (old(d), key, value), Ok(w)),
        call_ensures(ArctisNovaProWireless::range_written, (d, &w), ()),
        0 <= n < 5,
    ensures
        ({
            let before = slider_at(n, old(d).status);
            let after = slider_at(n, final(d).status);
            &&& after.0 == before.0
            &&& key@ == before.0@ ==> after.2.3 == w.value
            &&& key@ == before.0@ && before.2.0 <= value <= before.2.1 ==> after.2.3 == value
            &&& key@ == before.0@ && value < before.2.0 ==> after.2.3 == before.2.0
            &&& key@ == before.0@ && value > before.2.1 ==> after.2.3 == before.2.1
            &&& key@ != before.0@ ==> after.2.3 == before.2.3
        }),
{
    lemma_keys_differ();
    reveal_strlit("mic_volume");
    reveal_strlit("mic_led_brightness");
    reveal_strlit("nc_level");
    reveal_strlit("station_volume");
    reveal_strlit("chatmix");
    assert("mic_volume"@.len() == 10 && "mic_led_brightness"@.len() == 18 && "nc_level"@.len() == 8
        && "station_volume"@.len() == 14 && "chatmix"@.len() == 7);
}

/// The sliders stand under their keys with the values that are remembered for them; the
/// volume of the base station and the ChatMix dial can only be read.
pub proof fn shown_sliders_are_the_remembered_ones(s: ArctisStatus)
    ensures
        slider_at(0, s).0 == "mic_volume" && slider_at(0, s).2 == (1i32, 10i32, 1i32, s.mic_volume as i32)
            && !slider_at(0, s).3,
        slider_at(1, s).0 == "mic_led_brightness" && slider_at(1, s).2 == (
            10i32,
            100i32,
            10i32,
            s.mic_led_brightness as i32,
        ) && !slider_at(1, s).3,
        slider_at(2, s).0 == "nc_level" && slider_at(2, s).2 == (1i32, 10i32, 1i32, s.nc_level as i32)
            && !slider_at(2, s).3,
        slider_at(3, s).0 == "station_volume" && slider_at(3, s).2 == (
            0i32,
            100i32,
            1i32,
            s.station_volume as i32,
        ) && slider_at(3, s).3,
        slider_at(4, s).0 == "chatmix" && slider_at(4, s).3,
        s.chatmix_game <= 100 && s.chatmix_chat <= 100 ==> 0 <= slider_at(4, s).2.3 <= 100,
{
}

/// The ChatMix balance is in the centre where both sides are equally loud, moves towards
/// chat as the chat grows or the game fades, and reaches either end where one side is silent
/// and the other full.
pub proof fn balance_leans_to_the_louder_side(game: u8, chat: u8)
    ensures
        chat == game ==> chatmix_balance(game, chat) == 50,
        game < 255 ==> chatmix_balance((game + 1) as u8, chat) <= chatmix_balance(game, chat),
        chat < 255 ==> chatmix_balance(game, chat) <= chatmix_balance(game, (chat + 1) as u8),
        chat >= 2 && chat >= game + 2 ==> chatmix_balance(game, chat) > 50,
        game >= chat + 2 ==> chatmix_balance(game, chat) < 50,
        chatmix_balance(100, 0) == 0,
        chatmix_balance(0, 100) == 100,
        chat - game + 100 >= 0 ==> 0 <= (chat - game + 100) - 2 * chatmix_balance(game, chat) <= 1,
{
}

/// The presets in menu order have these device bytes; a byte that is not among them is the
/// editable preset, the fifth.
pub proof fn presets_have_their_bytes(index: usize, byte: u8, b: u8, i: usize)
    requires
        call_ensures(eq_preset_byte, (index,), b),
        call_ensures(eq_preset_index, (byte,), i),
    ensures
        index < 12 ==> b == seq![0x00u8, 1, 2, 3, 4, 5, 7, 8, 0x0c, 0x0d, 0x0f, 0x10][index as int],
        index >= 12 ==> b == 0x04,
        byte <= 5 ==> i == byte,
        byte == 7 || byte == 8 ==> i == byte - 1,
        byte == 0x0c || byte == 0x0d ==> i == byte - 4,
        byte == 0x0f || byte == 0x10 ==> i == byte - 5,
        byte == 6 || 9 <= byte <= 0x0b || byte == 0x0e || byte > 0x10 ==> i == 4,
{
    reveal_with_fuel(preset_from, 14);
    let t = EQ_PRESETS;
    assert(t@.len() == 12);
    assert(t@[0].0 == 0 && t@[1].0 == 1 && t@[2].0 == 2 && t@[3].0 == 3 && t@[4].0 == 4 && t@[5].0
        == 5 && t@[6].0 == 7 && t@[7].0 == 8 && t@[8].0 == 0x0c && t@[9].0 == 0x0d && t@[10].0
        == 0x0f && t@[11].0 == 0x10);
}

/// The presets are offered under these names; only the fifth can be edited, and it alone
/// carries no curve of its own.
pub proof fn presets_have_their_names(presets: Vec<EqPreset>, i: int)
    requires
        call_ensures(eq_preset_options, (), presets),
        0 <= i < 12,
    ensures
        presets@.len() == 12,
        presets@[i].label == seq![
            "Flat",
            "Bass Boost",
            "Focus",
            "Smiley",
            "Custom",
            "Apex Legends",
            "Call of Duty: MWII",
            "Call of Duty: Warzone",
            "FPS Footsteps",
            "GTA V",
            "Overwatch 2",
            "PUBG",
        ][i],
        presets@[i].is_custom <==> i == 4,
        presets@[i].is_firmware <==> i != 4,
        presets@[i].bands is Some <==> i != 4,
        presets@[i].bands is Some ==> presets@[i].bands->Some_0@.len() == 10,
        presets@[0].bands->Some_0@ == Seq::new(10, |k: int| 0i32),
{
    let t = EQ_PRESETS;
    let c = EQ_CURVES;
    assert(is_preset(presets@[i], i));
    assert(is_preset(presets@[0], 0));
    assert(t@[0].0 == 0 && t@[1].0 == 1 && t@[2].0 == 2 && t@[3].0 == 3 && t@[4].0 == 4 && t@[5].0
        == 5 && t@[6].0 == 7 && t@[7].0 == 8 && t@[8].0 == 0x0c && t@[9].0 == 0x0d && t@[10].0
        == 0x0f && t@[11].0 == 0x10);
    assert(t@[0].1 == "Flat" && t@[1].1 == "Bass Boost" && t@[2].1 == "Focus" && t@[3].1 == "Smiley"
        && t@[4].1 == "Custom" && t@[5].1 == "Apex Legends" && t@[6].1 == "Call of Duty: MWII"
        && t@[7].1 == "Call of Duty: Warzone" && t@[8].1 == "FPS Footsteps" && t@[9].1 == "GTA V"
        && t@[10].1 == "Overwatch 2" && t@[11].1 == "PUBG");
    assert(c@[0]@ =~= Seq::new(10, |k: int| 0i32));
}

/// A preset is selected by the byte of its menu position, is remembered as that byte, and is
/// then the one that is shown as selected.
pub proof fn selected_presets_are_shown(
    d: &mut ArctisNovaProWireless,
    index: usize,
    sent: Vec<u8>,
    byte: u8,
    e: Equalizer,
)
    requires
        index < 12,
        call_ensures(ArctisNovaProWireless::set_eq_preset, (old(d), index), sent),
        call_ensures(ArctisNovaProWireless::eq_preset_written, (d, index), ()),
        call_ensures(ArctisNovaProWireless::get_equalizer, (final(d),), e),
        call_ensures(eq_preset_byte, (index,), byte),
    ensures
        sent@ == seq![0x06u8, 0x2e, byte],
        final(d).status.eq_preset == byte,
        final(d).status == (ArctisStatus { eq_preset: byte, ..old(d).status }),
        e.selected_preset == index,
        e.bands@.len() == 10,
        index == 4 ==> forall|i: int| 0 <= i < 10 ==> e.bands@[i].value == old(d).status.eq_bands@[i],
{
    preset_round_trips(index);
    let t = EQ_PRESETS;
    assert(t@[4].0 == 4);
}

/// A custom curve is written by selecting the editable preset and sending its ten levels;
/// any other number of levels is refused. The curve is then the one that is shown.
pub proof fn written_curves_are_shown(
    d: &mut ArctisNovaProWireless,
    levels: &[i32],
    r: Result<(Vec<u8>, Vec<u8>), HeadsetError>,
    e: Equalizer,
    i: int,
)
    requires
        0 <= i < 10,
        call_ensures(ArctisNovaProWireless::set_eq_bands, (old(d), levels), r),
        call_ensures(ArctisNovaProWireless::eq_bands_written, (d, levels), ()),
        call_ensures(ArctisNovaProWireless::get_equalizer, (final(d),), e),
    ensures
        r is Ok <==> levels@.len() == 10,
        r is Ok ==> {
            &&& r->Ok_0.0@ == seq![0x06u8, 0x2e, 0x04]
            &&& r->Ok_0.1@.len() == 12 && r->Ok_0.1@[0] == 0x06 && r->Ok_0.1@[1] == 0x33
            &&& -10000 <= levels@[i] <= 10000 ==> -250 <= 500 * r->Ok_0.1@[2 + i] - 10000
                - levels@[i] <= 250
            &&& levels@[i] > 10000 ==> r->Ok_0.1@[2 + i] == 40
            &&& levels@[i] < -10000 ==> r->Ok_0.1@[2 + i] == 0
        },
        r is Ok ==> {
            &&& e.selected_preset == 4
            &&& -10000 <= levels@[i] <= 10000 ==> e.bands@[i].value == levels@[i]
            &&& levels@[i] > 10000 ==> e.bands@[i].value == 10000
            &&& levels@[i] < -10000 ==> e.bands@[i].value == -10000
        },
{
    if levels@.len() == 10 {
        preset_round_trips(4);
        let t = EQ_PRESETS;
        assert(t@[4].0 == 4);
        assert(final(d).status.eq_bands@[i] == within_ten(levels@[i] as int) as i32);
    }
}

/// The equalizer shows ten bands with these labels, from ten decibels below to ten above in
/// steps of half a decibel.
pub proof fn bands_have_their_labels(byte: u8, custom: Seq<i32>, i: int)
    requires
        0 <= i < 10,
    ensures
        shown_band(i, byte, custom).index == i,
        shown_band(i, byte, custom).label == seq![
            "31 Hz",
            "62 Hz",
            "125 Hz",
            "250 Hz",
            "500 Hz",
            "1 kHz",
            "2 kHz",
            "4 kHz",
            "8 kHz",
            "16 kHz",
        ][i],
        shown_band(i, byte, custom).min == -10000,
        shown_band(i, byte, custom).max == 10000,
        shown_band(i, byte, custom).step == 500,
{
    let t = EQ_BAND_LABELS;
    assert(t@ =~= seq![
        "31 Hz",
        "62 Hz",
        "125 Hz",
        "250 Hz",
        "500 Hz",
        "1 kHz",
        "2 kHz",
        "4 kHz",
        "8 kHz",
        "16 kHz",
    ]);
}

/// The headset's level is shown while it is in use or charges, and the slot's always; the
/// headset charges exactly where it says so.
pub proof fn batteries_show_their_levels(s: ArctisStatus, b: Vec<Battery>)
    requires
        call_ensures(build_batteries, (&s,), b),
    ensures
        b@.len() == 2,
        b@[0].key == "headset" && b@[1].key == "slot",
        s.power_status == 0x08 || s.power_status == 0x02 ==> b@[0].level == s.headset_battery,
        s.power_status != 0x08 && s.power_status != 0x02 ==> b@[0].level == 0 && b@[0].status
            == BatteryStatus::Unknown,
        b@[0].status == BatteryStatus::Charging <==> s.power_status == 0x02,
        b@[0].status == BatteryStatus::Discharging <==> s.power_status == 0x08,
        b@[1].level == s.slot_battery && b@[1].status == BatteryStatus::Discharging,
{
}

/// The microphone shows as live exactly where it is not muted. The Bluetooth indicators are
/// there exactly where the base station has Bluetooth.
pub proof fn indicators_show_the_state(s: ArctisStatus, bt: bool, b: Vec<Boolean>)
    requires
        call_ensures(build_booleans, (&s, bt), b),
    ensures
        b@.len() == if bt {
            3nat
        } else {
            1nat
        },
        b@[0].key == "mic_active" && b@[0].value == !s.mic_muted,
        bt ==> b@[1].key == "bt_connection" && (b@[1].value <==> s.bt_connection > 0),
        bt ==> b@[2].key == "bt_auto_mute" && (b@[2].value <==> s.bt_auto_mute > 0),
        forall|i: int| 0 <= i < b@.len() ==> b@[i].read_only,
{
}

/// The base station's level is a signed number of decibels: 0 dB and above is full volume,
/// -56 dB and below silence, and between them the percentage is proportional, rounded down.
pub proof fn station_volume_is_proportional(raw: u8, r: u8)
    requires
        call_ensures(station_volume_percent, (raw,), r),
    ensures
        raw < 128 ==> r == 100,
        128 <= raw <= 200 ==> r == 0,
        raw > 200 ==> 56 * r <= 100 * (raw - 200) < 56 * r + 56,
{
}

/// What a polling pass brings in is remembered field by field; what it does not bring in
/// stays as it was.
pub proof fn polls_are_remembered(
    s: &mut ArctisStatus,
    poll: ArctisPoll,
    volumes: Vec<ArctisChatMixFields>,
)
    requires
        call_ensures(apply_poll, (s, poll), volumes),
    ensures
        volumes@ == poll.chatmix@,
        poll.status matches Some(f) ==> {
            &&& final(s).polled
            &&& final(s).headset_battery == f.headset_battery
            &&& final(s).slot_battery == f.slot_battery
            &&& final(s).power_status == f.power_status
            &&& final(s).mic_muted == f.mic_muted
            &&& final(s).nc_mode == f.nc_mode
            &&& final(s).nc_level == f.nc_level
            &&& final(s).wireless_mode == f.wireless_mode
            &&& final(s).auto_off_raw == f.auto_off_raw
            &&& final(s).mic_led_brightness == f.mic_led_brightness
            &&& final(s).bt_powerup_state == f.bt_powerup_state
            &&& final(s).bt_auto_mute == f.bt_auto_mute
            &&& final(s).bt_power_status == f.bt_power_status
            &&& final(s).bt_connection == f.bt_connection
            &&& final(s).bt_wireless_pairing == f.bt_wireless_pairing
        },
        poll.status is None ==> {
            &&& final(s).polled == old(s).polled
            &&& final(s).headset_battery == old(s).headset_battery
            &&& final(s).slot_battery == old(s).slot_battery
            &&& final(s).power_status == old(s).power_status
            &&& final(s).mic_muted == old(s).mic_muted
            &&& final(s).nc_mode == old(s).nc_mode
            &&& final(s).nc_level == old(s).nc_level
            &&& final(s).wireless_mode == old(s).wireless_mode
            &&& final(s).auto_off_raw == old(s).auto_off_raw
            &&& final(s).mic_led_brightness == old(s).mic_led_brightness
        },
        poll.settings matches Some(f) ==> {
            &&& final(s).gain == f.gain
            &&& final(s).eq_preset == f.eq_preset
            &&& final(s).sidetone == f.sidetone
            &&& final(s).eq_bands == f.eq_bands
        },
        poll.settings is None ==> {
            &&& final(s).gain == old(s).gain
            &&& final(s).eq_preset == old(s).eq_preset
            &&& final(s).sidetone == old(s).sidetone
            &&& final(s).eq_bands == old(s).eq_bands
        },
        poll.mic_volume_raw matches Some(v) ==> final(s).mic_volume == if v == 0 {
            1
        } else if v > 10 {
            10
        } else {
            v
        },
        poll.mic_volume_raw is None ==> final(s).mic_volume == old(s).mic_volume,
        poll.station_volume_raw matches Some(v) ==> (v < 128 ==> final(s).station_volume == 100)
            && (128 <= v <= 200 ==> final(s).station_volume == 0),
        poll.station_volume_raw is None ==> final(s).station_volume == old(s).station_volume,
        poll.chatmix@.len() > 0 ==> final(s).chatmix_game == poll.chatmix@.last().game
            && final(s).chatmix_chat == poll.chatmix@.last().chat,
        poll.chatmix@.len() == 0 ==> final(s).chatmix_game == old(s).chatmix_game
            && final(s).chatmix_chat == old(s).chatmix_chat,
        final(s).sonar_eq == old(s).sonar_eq,
        final(s).screen_mode == old(s).screen_mode,
        final(s).suppress_until_ms == old(s).suppress_until_ms,
{
}

/// A ChatMix notification on its own is remembered side by side.
pub proof fn chatmix_is_remembered(s: &mut ArctisStatus, f: ArctisChatMixFields)
    requires
        call_ensures(dispatch_chatmix, (s, &f), ()),
    ensures
        final(s).chatmix_game == f.game,
        final(s).chatmix_chat == f.chat,
        final(s).station_volume == old(s).station_volume,
        final(s).mic_volume == old(s).mic_volume,
{
}

/// Polling is held back for three seconds after a change, and no longer.
pub proof fn polling_waits_three_seconds(
    d: &mut ArctisNovaProWireless,
    now_ms: u64,
    later_ms: u64,
    held: bool,
)
    requires
        call_ensures(ArctisNovaProWireless::suppress, (d, now_ms), ()),
        call_ensures(ArctisNovaProWireless::suppressed, (final(d), later_ms), held),
        now_ms + 3000 <= u64::MAX,
    ensures
        held <==> later_ms < now_ms + 3000,
{
}

/// Three products of one vendor are supported, on their fourth interface; those with
/// Bluetooth are the two X models.
pub proof fn three_products_are_supported(
    vid: u16,
    pid: u16,
    interface: Option<i32>,
    found: bool,
    index: usize,
    now_ms: u64,
    d: ArctisNovaProWireless,
)
    requires
        call_ensures(matches_hid, (vid, pid, interface), found),
        call_ensures(ArctisNovaProWireless::new, (pid, index, now_ms), d),
    ensures
        found <==> vid == 0x1038 && (pid == 0x12E0 || pid == 0x12E5 || pid == 0x225D) && interface
            == Some(4i32),
        d.bt_variant <==> pid == 0x12E5 || pid == 0x225D,
        d.vid == 0x1038,
        d.model_name == if pid == 0x12E5 || pid == 0x225D {
            "Arctis Nova Pro Wireless X"
        } else {
            "Arctis Nova Pro Wireless"
        },
        !d.status.polled,
{
    reveal_with_fuel(model_from, 4);
    let t = ARCTIS_IDS;
    let b = BT_VARIANT_PIDS;
    assert(t@[0].0 == 0x1038 && t@[1].0 == 0x1038 && t@[2].0 == 0x1038);
    assert(t@[0].1 == 0x12E0 && t@[1].1 == 0x12E5 && t@[2].1 == 0x225D);
    assert(t@[0].2 == "Arctis Nova Pro Wireless" && t@[1].2 == "Arctis Nova Pro Wireless X"
        && t@[2].2 == "Arctis Nova Pro Wireless X");
    assert(b@.len() == 2 && b@[0] == 0x12E5 && b@[1] == 0x225D);
    if b@.contains(pid) {
        assert(pid == b@[0] || pid == b@[1]);
    }
    assert(b@.contains(b@[0]) && b@.contains(b@[1]));
}

/// A headset that was not polled yet counts as offline with everything at zero, but for
/// full volumes and brightness.
pub proof fn unpolled_headsets_are_offline(now_ms: u64, s: ArctisStatus, b: Vec<Battery>, i: int)
    requires
        call_ensures(ArctisStatus::new, (now_ms,), s),
        call_ensures(build_batteries, (&s,), b),
        0 <= i < 10,
    ensures
        !s.polled && !s.mic_muted && s.power_status == 0x01,
        b@[0].level == 0 && b@[0].status == BatteryStatus::Unknown && b@[1].level == 0,
        s.nc_mode == 0 && s.nc_level == 0 && s.wireless_mode == 0 && s.auto_off_raw == 0,
        s.gain == 0 && s.sidetone == 0 && s.eq_preset == 0 && s.eq_bands@[i] == 0,
        s.sonar_eq == 0 && s.screen_mode == 0,
        s.chatmix_game == 100 && s.chatmix_chat == 100 && s.mic_led_brightness == 100,
        s.mic_volume == 10 && s.station_volume == 100,
        s.bt_powerup_state == 0 && s.bt_auto_mute == 0 && s.bt_connection == 0,
        s.suppress_until_ms == now_ms,
{
}

/// The noise-cancelling modes are off, transparent and noise cancelling, in this order.
pub proof fn modes_have_their_labels(r: Vec<ChoiceOption>)
    requires
        call_ensures(nc_mode_options, (), r),
    ensures
        r@.len() == 3,
        r@[0].label == "Off" && r@[1].label == "Transparent" && r@[2].label == "Noise Cancelling",
{
    assert(r@[0].label == "Off");
    assert(r@[1].label == "Transparent");
    assert(r@[2].label == "Noise Cancelling");
}

/// Only what the headset never reports back is set again on start-up.
pub proof fn unreported_controls_are_restored(key: &str, choice: bool, range: bool)
    requires
        call_ensures(restores_choice, (key,), choice),
        call_ensures(restores_range, (key,), range),
    ensures
        choice <==> key@ == "sonar_eq"@ || key@ == "screen_mode"@,
        range <==> key@ == "mic_volume"@,
{
}

/// What the headset shows of its state is what its state shows on its own, and indicators
/// cannot be set.
pub proof fn headsets_show_their_state(
    d: ArctisNovaProWireless,
    b: Vec<Boolean>,
    c: Vec<Boolean>,
    p: Vec<Battery>,
    q: Vec<Battery>,
    key: &str,
    value: bool,
    r: Result<Vec<u8>, HeadsetError>,
)
    requires
        call_ensures(ArctisNovaProWireless::get_booleans, (&d,), b),
        call_ensures(build_booleans, (&d.status, d.bt_variant), c),
        call_ensures(ArctisNovaProWireless::get_batteries, (&d,), p),
        call_ensures(build_batteries, (&d.status,), q),
        call_ensures(ArctisNovaProWireless::set_boolean, (&d, key, value), r),
    ensures
        b@ == c@,
        p@ == q@,
        r == Err::<Vec<u8>, HeadsetError>(HeadsetError::ReadOnly),
{
}

/// A headset is shown with its indicators, selections, sliders and equalizer, and with its
/// batteries in front once they were polled.
pub proof fn headsets_are_shown_with_their_controls(
    d: ArctisNovaProWireless,
    r: WireDevice,
    b: Vec<Boolean>,
    p: Vec<Battery>,
)
    requires
        call_ensures(ArctisNovaProWireless::serialize, (&d,), r),
        call_ensures(ArctisNovaProWireless::get_booleans, (&d,), b),
        call_ensures(ArctisNovaProWireless::get_batteries, (&d,), p),
    ensures
        r.id@ == d.id@ && r.name == d.model_name && r.model == d.model_name,
        r.vendor == "SteelSeries" && r.device_type == DeviceType::Headset && r.connected,
        ({
            let at: int = if d.status.polled {
                1
            } else {
                0
            };
            &&& r.capabilities@.len() == 4 + at
            &&& at == 1 ==> (r.capabilities@[0] matches DeviceCapability::Battery(v) && v@ == p@)
            &&& r.capabilities@[at] matches DeviceCapability::Boolean(v) && v@ == b@
            &&& r.capabilities@[at + 1] matches DeviceCapability::Choice(v) && v@.len() == 7
            &&& r.capabilities@[at + 2] matches DeviceCapability::Range(v) && v@.len() == 5
            &&& r.capabilities@[at + 3] is Equalizer
        }),
        r.control_layout@.len() == 2,
        r.control_layout@[0].category == "Microphone" && r.control_layout@[0].order == 0
            && r.control_layout@[0].column == 0 && r.control_layout@[0].span == 1,
        r.control_layout@[1].category == "Noise Cancelling" && r.control_layout@[1].order == 1
            && r.control_layout@[1].column == 1 && r.control_layout@[1].span == 1,
{
    if d.status.polled {
        let caps = r.capabilities@.subrange(1, 5);
        assert(caps[0] == r.capabilities@[1] && caps[1] == r.capabilities@[2]);
        assert(caps[2] == r.capabilities@[3] && caps[3] == r.capabilities@[4]);
    }
}

/// The virtual sinks are named after the model, for media and for chat.
pub proof fn sinks_are_named_after_the_model(d: ArctisNovaProWireless, r: (String, String))
    requires
        call_ensures(ArctisNovaProWireless::sink_names, (&d,), r),
    ensures
        r.0@ == "SteelSeries "@ + d.model_name@ + " Media"@,
        r.1@ == "SteelSeries "@ + d.model_name@ + " Chat"@,
{
}

/// A status reply and a settings reply are remembered field by field, and neither touches
/// what the other brings.
pub proof fn replies_are_remembered(
    a: &mut ArctisStatus,
    f: ArctisStatusFields,
    b: &mut ArctisStatus,
    g: ArctisSettingsFields,
)
    requires
        call_ensures(apply_status_fields, (a, &f), ()),
        call_ensures(apply_settings_fields, (b, &g), ()),
    ensures
        final(a).polled && final(a).headset_battery == f.headset_battery,
        final(a).slot_battery == f.slot_battery && final(a).power_status == f.power_status,
        final(a).mic_muted == f.mic_muted && final(a).nc_mode == f.nc_mode,
        final(a).nc_level == f.nc_level && final(a).wireless_mode == f.wireless_mode,
        final(a).auto_off_raw == f.auto_off_raw,
        final(a).mic_led_brightness == f.mic_led_brightness,
        final(a).gain == old(a).gain && final(a).sidetone == old(a).sidetone,
        final(a).eq_preset == old(a).eq_preset && final(a).eq_bands == old(a).eq_bands,
        final(b).gain == g.gain && final(b).sidetone == g.sidetone,
        final(b).eq_preset == g.eq_preset && final(b).eq_bands == g.eq_bands,
        final(b).polled == old(b).polled && final(b).headset_battery == old(b).headset_battery,
        final(b).nc_mode == old(b).nc_mode && final(b).mic_muted == old(b).mic_muted,
{
}

/// The curve of a preset in half decibels, from the lowest band to the highest.
pub open spec fn half_decibels(label: &'static str) -> Seq<int> {
    if label == "Bass Boost" {
        seq![7int, 11, 8, 2, -3, -3, -2, -2, -2, -2]
    } else if label == "Focus" {
        seq![-10int, -7, -2, -7, -5, 8, 12, 7, -7, 0]
    } else if label == "Smiley" {
        seq![6int, 7, 3, -3, -8, -8, -5, 3, 6, 8]
    } else if label == "Apex Legends" {
        seq![-20int, -12, 12, 0, 0, 8, 0, 13, 19, 8]
    } else if label == "Call of Duty: MWII" {
        seq![0int, 3, 12, 5, 0, 0, 4, 2, 12, 8]
    } else if label == "Call of Duty: Warzone" {
        seq![-20int, -6, 12, 0, 5, 4, 3, 2, 8, 3]
    } else if label == "FPS Footsteps" {
        seq![-20int, -4, 10, 8, 0, -3, -3, 3, 6, 3]
    } else if label == "GTA V" {
        seq![6int, 15, 12, -3, 0, 2, 3, 5, 6, 6]
    } else if label == "Overwatch 2" {
        seq![-12int, -8, 2, -4, -2, 0, 0, 0, 6, 12]
    } else if label == "PUBG" {
        seq![-20int, -12, -2, 0, 4, 10, 5, -8, 7, 3]
    } else {
        seq![0int, 0, 0, 0, 0, 0, 0, 0, 0, 0]
    }
}

/// Every preset but the editable one carries its own curve, which is the one that is shown
/// while it is selected; the editable one shows the curve that was set.
pub proof fn presets_have_their_curves(
    presets: Vec<EqPreset>,
    index: usize,
    byte: u8,
    custom: [i32; 10],
    e: Equalizer,
    i: int,
)
    requires
        call_ensures(eq_preset_options, (), presets),
        index < 12,
        call_ensures(eq_preset_byte, (index,), byte),
        call_ensures(build_equalizer, (byte, &custom), e),
        0 <= i < 10,
    ensures
        index != 4 ==> presets@[index as int].bands is Some
            && presets@[index as int].bands->Some_0@[i] == 500 * half_decibels(
            presets@[index as int].label,
        )[i],
        index != 4 ==> e.bands@[i].value == presets@[index as int].bands->Some_0@[i],
        index == 4 ==> e.bands@[i].value == custom@[i],
        e.selected_preset == index && e.editable,
{
    preset_round_trips(index);
    let t = EQ_PRESETS;
    let c = EQ_CURVES;
    assert(is_preset(presets@[index as int], index as int));
    assert(e.bands@[i].value == shown_curve(byte, custom@)[i]);
    assert(t@[4].0 == 4);
    assert(t@[0].1 == "Flat");
    assert(t@[1].1 == "Bass Boost");
    assert(t@[2].1 == "Focus");
    assert(t@[3].1 == "Smiley");
    assert(t@[5].1 == "Apex Legends");
    assert(t@[6].1 == "Call of Duty: MWII");
    assert(t@[7].1 == "Call of Duty: Warzone");
    assert(t@[8].1 == "FPS Footsteps");
    assert(t@[9].1 == "GTA V");
    assert(t@[10].1 == "Overwatch 2");
    assert(t@[11].1 == "PUBG");
    assert(c@[0]@[0] == 0 && c@[0]@[1] == 0 && c@[0]@[2] == 0 && c@[0]@[3] == 0 && c@[0]@[4] == 0);
    assert(c@[0]@[5] == 0 && c@[0]@[6] == 0 && c@[0]@[7] == 0 && c@[0]@[8] == 0 && c@[0]@[9] == 0);
    assert(c@[1]@[0] == 3500 && c@[1]@[1] == 5500 && c@[1]@[2] == 4000 && c@[1]@[3] == 1000
        && c@[1]@[4] == -1500);
    assert(c@[1]@[5] == -1500 && c@[1]@[6] == -1000 && c@[1]@[7] == -1000 && c@[1]@[8] == -1000
        && c@[1]@[9] == -1000);
    assert(c@[2]@[0] == -5000 && c@[2]@[1] == -3500 && c@[2]@[2] == -1000 && c@[2]@[3] == -3500
        && c@[2]@[4] == -2500);
    assert(c@[2]@[5] == 4000 && c@[2]@[6] == 6000 && c@[2]@[7] == 3500 && c@[2]@[8] == -3500
        && c@[2]@[9] == 0);
    assert(c@[3]@[0] == 3000 && c@[3]@[1] == 3500 && c@[3]@[2] == 1500 && c@[3]@[3] == -1500
        && c@[3]@[4] == -4000);
    assert(c@[3]@[5] == -4000 && c@[3]@[6] == -2500 && c@[3]@[7] == 1500 && c@[3]@[8] == 3000
        && c@[3]@[9] == 4000);
    assert(c@[5]@[0] == -10000 && c@[5]@[1] == -6000 && c@[5]@[2] == 6000 && c@[5]@[3] == 0
        && c@[5]@[4] == 0);
    assert(c@[5]@[5] == 4000 && c@[5]@[6] == 0 && c@[5]@[7] == 6500 && c@[5]@[8] == 9500
        && c@[5]@[9] == 4000);
    assert(c@[6]@[0] == 0 && c@[6]@[1] == 1500 && c@[6]@[2] == 6000 && c@[6]@[3] == 2500
        && c@[6]@[4] == 0);
    assert(c@[6]@[5] == 0 && c@[6]@[6] == 2000 && c@[6]@[7] == 1000 && c@[6]@[8] == 6000
        && c@[6]@[9] == 4000);
    assert(c@[7]@[0] == -10000 && c@[7]@[1] == -3000 && c@[7]@[2] == 6000 && c@[7]@[3] == 0
        && c@[7]@[4] == 2500);
    assert(c@[7]@[5] == 2000 && c@[7]@[6] == 1500 && c@[7]@[7] == 1000 && c@[7]@[8] == 4000
        && c@[7]@[9] == 1500);
    assert(c@[8]@[0] == -10000 && c@[8]@[1] == -2000 && c@[8]@[2] == 5000 && c@[8]@[3] == 4000
        && c@[8]@[4] == 0);
    assert(c@[8]@[5] == -1500 && c@[8]@[6] == -1500 && c@[8]@[7] == 1500 && c@[8]@[8] == 3000
        && c@[8]@[9] == 1500);
    assert(c@[9]@[0] == 3000 && c@[9]@[1] == 7500 && c@[9]@[2] == 6000 && c@[9]@[3] == -1500
        && c@[9]@[4] == 0);
    assert(c@[9]@[5] == 1000 && c@[9]@[6] == 1500 && c@[9]@[7] == 2500 && c@[9]@[8] == 3000
        && c@[9]@[9] == 3000);
    assert(c@[10]@[0] == -6000 && c@[10]@[1] == -4000 && c@[10]@[2] == 1000 && c@[10]@[3] == -2000
        && c@[10]@[4] == -1000);
    assert(c@[10]@[5] == 0 && c@[10]@[6] == 0 && c@[10]@[7] == 0 && c@[10]@[8] == 3000
        && c@[10]@[9] == 6000);
    assert(c@[11]@[0] == -10000 && c@[11]@[1] == -6000 && c@[11]@[2] == -1000 && c@[11]@[3] == 0
        && c@[11]@[4] == 2000);
    assert(c@[11]@[5] == 5000 && c@[11]@[6] == 2500 && c@[11]@[7] == -4000 && c@[11]@[8] == 3500
        && c@[11]@[9] == 1500);
    reveal_strlit("Flat");
    reveal_strlit("Bass Boost");
    reveal_strlit("Focus");
    reveal_strlit("Smiley");
    reveal_strlit("Apex Legends");
    reveal_strlit("Call of Duty: MWII");
    reveal_strlit("Call of Duty: Warzone");
    reveal_strlit("FPS Footsteps");
    reveal_strlit("GTA V");
    reveal_strlit("Overwatch 2");
    reveal_strlit("PUBG");
}

} // verus!
