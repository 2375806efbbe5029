//! What devices report about themselves: colours, controls and their current
//! values, in the shape that is handed to a user interface.

use crate::rgb::RgbDescriptor;
use crate::text::{decimal, decimal_string};
use vstd::prelude::*;

verus! {

/// What kind of device a driver stands for.
#[derive(Debug, Clone, Copy, PartialEq, Eq, Structural)]
pub enum DeviceType {
    Monitor,
    Headset,
    Fan,
    Hub,
    Aio,
    Mouse,
    Gpu,
    Sensor,
}

/// Shows a control only while the choice `key` has one of the listed selections.
#[derive(Debug, PartialEq, Eq)]
pub struct VisibleWhen {
    pub key: &'static str,
    pub equals: Vec<u32>,
}

/// An integer slider.
#[derive(Debug)]
pub struct Range {
    pub key: &'static str,
    pub label: &'static str,
    pub min: i32,
    pub max: i32,
    pub step: i32,
    pub value: i32,
    pub read_only: bool,
    pub category: &'static str,
    pub start_label: Option<&'static str>,
    pub end_label: Option<&'static str>,
    pub visible_when: Option<VisibleWhen>,
}

/// An on/off switch.
#[derive(Debug)]
pub struct Boolean {
    pub key: &'static str,
    pub label: &'static str,
    pub value: bool,
    pub read_only: bool,
    pub category: &'static str,
}

/// One entry of a choice.
#[derive(Debug)]
pub struct ChoiceOption {
    pub id: String,
    pub label: &'static str,
}

/// How a choice is drawn; `Auto` leaves it to the interface.
#[derive(Debug, Clone, Copy, PartialEq, Eq, Structural)]
pub enum ChoiceDisplay {
    Auto,
    Inline,
    List,
    Toggle,
}

/// A selection out of several options.
#[derive(Debug)]
pub struct Choice {
    pub key: &'static str,
    pub label: &'static str,
    pub options: Vec<ChoiceOption>,
    pub selected: usize,
    pub category: &'static str,
    pub display: ChoiceDisplay,
}

/// A button.
#[derive(Debug)]
pub struct Action {
    pub key: &'static str,
    pub label: &'static str,
    pub category: &'static str,
}

/// Charge state of a battery.
#[derive(Debug, Clone, Copy, PartialEq, Eq, Structural)]
pub enum BatteryStatus {
    Charging,
    Discharging,
    Full,
    Unknown,
}

/// A battery level in percent.
#[derive(Debug)]
pub struct Battery {
    pub key: &'static str,
    pub label: &'static str,
    pub level: u8,
    pub status: BatteryStatus,
}

/// A preset of an equalizer. Levels are held in thousandths of a decibel.
#[derive(Debug)]
pub struct EqPreset {
    pub id: String,
    pub label: &'static str,
    pub is_custom: bool,
    pub is_firmware: bool,
    pub bands: Option<Vec<i32>>,
}

/// A band of an equalizer. Levels are held in thousandths of a decibel.
#[derive(Debug, Clone, Copy)]
pub struct EqBand {
    pub index: usize,
    pub label: &'static str,
    pub min: i32,
    pub max: i32,
    pub step: i32,
    pub value: i32,
}

/// An equalizer with its presets.
#[derive(Debug)]
pub struct Equalizer {
    pub selected_preset: usize,
    pub editable: bool,
    pub presets: Vec<EqPreset>,
    pub bands: Vec<EqBand>,
}

/// Where a category of controls is placed.
#[derive(Debug)]
pub struct CategoryLayout {
    pub category: &'static str,
    pub order: u32,
    pub column: u32,
    pub span: u32,
}

/// Unit of a sensor value.
#[derive(Debug, Clone, Copy, PartialEq, Eq, Structural)]
pub enum SensorUnit {
    Celsius,
}

/// What a sensor measures.
#[derive(Debug, Clone, Copy, PartialEq, Eq, Structural)]
pub enum SensorType {
    Temperature,
}

/// Whether the user wants to see something.
#[derive(Debug, Clone, Copy, PartialEq, Eq, Structural)]
pub enum VisibilityState {
    Visible,
    Hidden,
}

/// A sensor reading. The value is held in tenths of the unit.
#[derive(Debug)]
pub struct Sensor {
    pub id: String,
    pub name: String,
    pub tenths: i64,
    pub unit: SensorUnit,
    pub sensor_type: SensorType,
    pub visibility: VisibilityState,
}

/// A pump and whether its duty can be set.
#[derive(Debug, Clone, Copy, PartialEq, Eq, Structural)]
pub struct PumpStatus {
    pub rpm: u32,
    pub duty: u8,
    pub controllable: bool,
}

/// A fan and whether its duty can be set.
#[derive(Debug, Clone, Copy, PartialEq, Eq, Structural)]
pub struct FanStatus {
    pub channel: u8,
    pub rpm: u32,
    pub duty: u8,
    pub controllable: bool,
}

/// Outline of a screen.
#[derive(Debug, Clone, Copy, PartialEq, Eq, Structural)]
pub enum ScreenShape {
    Circle,
}

/// A screen and what can be shown on it.
#[derive(Debug)]
pub struct LcdDescriptor {
    pub shape: ScreenShape,
    pub width: u32,
    pub height: u32,
    pub supported_rotations: Vec<u32>,
    pub supported_image_types: Vec<&'static str>,
}

/// What a screen shows.
#[derive(Debug, Clone, Copy, PartialEq, Eq, Structural)]
pub enum LcdMode {
    Default,
    Image,
    Gif,
}

/// A channel that takes a chain of LED accessories.
#[derive(Debug)]
pub struct ChannelDescriptor {
    pub channel_id: String,
    pub display_name: String,
    pub max_leds: u32,
}

/// Who holds the sensitivity settings.
#[derive(Debug, Clone, Copy, PartialEq, Eq, Structural)]
pub enum DpiMode {
    Host,
    Onboard,
}

/// The sensitivity settings of a mouse.
#[derive(Debug)]
pub struct DpiStatus {
    pub steps: Vec<u16>,
    pub current_index: usize,
    pub current_dpi: u16,
    pub available_dpis: Vec<u16>,
    pub mode: DpiMode,
}

/// One group of controls of a device.
#[derive(Debug)]
pub enum DeviceCapability {
    Range(Vec<Range>),
    Boolean(Vec<Boolean>),
    Choice(Vec<Choice>),
    Action(Vec<Action>),
    Battery(Vec<Battery>),
    Equalizer(Equalizer),
    Pump(PumpStatus),
    Fan(FanStatus),
    Sensors(Vec<Sensor>),
    Rgb(RgbDescriptor),
    Lcd(LcdDescriptor),
    Children(Vec<WireDevice>),
}

/// A device with its controls, as shown to the user.
#[derive(Debug)]
pub struct WireDevice {
    pub id: String,
    pub name: &'static str,
    pub vendor: &'static str,
    pub model: &'static str,
    pub device_type: DeviceType,
    pub connected: bool,
    pub serial_number: Option<String>,
    pub capabilities: Vec<DeviceCapability>,
    pub control_layout: Vec<CategoryLayout>,
}

/// Whether two optional texts read the same.
pub open spec fn same_option(a: Option<String>, b: Option<String>) -> bool {
    match (a, b) {
        (Some(x), Some(y)) => x@ == y@,
        (None, None) => true,
        _ => false,
    }
}

/// Copies an optional text.
pub fn copy_option(a: &Option<String>) -> (r: Option<String>)
    ensures
        same_option(r, *a),
{
    match a {
        Some(s) => Some(s.clone()),
        None => None,
    }
}

/// The contents of an option list: `ids` and `labels` pairwise.
pub open spec fn options_are(
    options: Seq<ChoiceOption>,
    ids: Seq<Seq<char>>,
    labels: Seq<&'static str>,
) -> bool {
    &&& options.len() == ids.len()
    &&& options.len() == labels.len()
    &&& forall|i: int|
        #![trigger options[i]]
        0 <= i < options.len() ==> options[i].id@ == ids[i] && options[i].label == labels[i]
}

/// The decimal numerals of `0..n`.
pub open spec fn numerals(n: nat) -> Seq<Seq<char>> {
    Seq::new(n, |i: int| decimal(i as nat))
}

/// Options with the given labels, identified by their positions.
pub fn numbered_options(labels: &[&'static str]) -> (r: Vec<ChoiceOption>)
    ensures
        options_are(r@, numerals(labels@.len()), labels@),
{
    let mut out: Vec<ChoiceOption> = Vec::new();
    let mut i: usize = 0;
    while i < labels.len()
        invariant
            i <= labels@.len(),
            out@.len() == i,
            forall|k: int|
                #![trigger out@[k]]
                0 <= k < i ==> out@[k].id@ == decimal(k as nat) && out@[k].label == labels@[k],
        decreases labels@.len() - i,
    {
        out.push(ChoiceOption { id: decimal_string(i as u64), label: labels[i] });
        i = i + 1;
    }
    out
}

/// Options are numbered by their position, and each keeps its label.
pub proof fn options_are_numbered(labels: &[&'static str], r: Vec<ChoiceOption>, i: int)
    requires
        call_ensures(numbered_options, (labels,), r),
        0 <= i < labels@.len(),
    ensures
        r@.len() == labels@.len(),
        r@[i].label == labels@[i],
        r@[i].id@ == decimal(i as nat),
{
}

/// A copy is there where the text is, and reads the same.
pub proof fn copies_read_the_same(a: Option<String>, r: Option<String>)
    requires
        call_ensures(copy_option, (&a,), r),
    ensures
        r is Some <==> a is Some,
        r is Some ==> r->Some_0@ == a->Some_0@,
{
}

} // verus!
