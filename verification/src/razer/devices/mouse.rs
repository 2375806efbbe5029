//! Razer mice, described by a table of models.

use crate::razer::protocols::razer::dpi::{dpi_report, CLASS_MISC, ID_SET_POLLING};
use crate::razer::protocols::razer::matrix::{
    frame_args, run_fits, RunTooLong, CLASS_EXT_MATRIX, CUSTOM_FRAME_DATA_SIZE, ID_CUSTOM_FRAME,
};
use crate::razer::protocols::razer::{report_bytes, Razer, RAZER_VID};
use crate::rgb::{
    find_zone, led_frame, per_led_frame, solid_frame, zone_named, RgbColor, RgbDescriptor,
    RgbState, RgbZone, ZoneLeds, ZoneTopology,
};
use crate::text::{owned, same_text};
use crate::types::{Choice, ChoiceDisplay, ChoiceOption, DeviceType, DpiMode, DpiStatus};
use vstd::prelude::*;

verus! {

/// The polling rates on offer: code and name.
pub const POLL_RATES: [(u8, &'static str); 3] = [
    (0x01, "1000 Hz"),
    (0x02, "500 Hz"),
    (0x08, "125 Hz"),
];

/// What distinguishes one model from another.
#[derive(Debug, Clone, Copy)]
pub struct MouseSpec {
    pub pid: u16,
    pub name: &'static str,
    pub model: &'static str,
    pub txid: u8,
    pub led_count: u32,
    pub dpi_min: u16,
    pub dpi_max: u16,
    pub dpi_steps: [u16; 3],
}

/// Product id of the Basilisk V3.
pub const BASILISK_V3_PID: u16 = 0x0099;

/// The steps of the Basilisk V3.
pub const BASILISK_V3_STEPS: [u16; 3] = [800, 1600, 3200];

/// The Basilisk V3.
pub open spec fn basilisk_v3() -> MouseSpec {
    MouseSpec {
        pid: BASILISK_V3_PID,
        name: "Basilisk V3",
        model: "Basilisk V3",
        txid: 0x1F,
        led_count: 11,
        dpi_min: 100,
        dpi_max: 26000,
        dpi_steps: BASILISK_V3_STEPS,
    }
}

/// The interface that takes vendor reports.
pub const CONTROL_INTERFACE: u8 = 3;

/// The distance between two offered sensitivities.
pub const DPI_STEP: u16 = 100;

/// The zone that all LEDs belong to.
pub const ZONE_ID: &'static str = "mouse";

/// Why a request was refused.
#[derive(Debug, Clone, Copy, PartialEq, Eq, Structural)]
pub enum MouseError {
    UnknownZone,
    UnknownKey,
    IndexOutOfRange { index: usize },
    FrameTooLong { count: usize },
}

/// The model with a product id.
pub fn spec_for(pid: u16) -> (r: Option<MouseSpec>)
    ensures
        r == if pid == BASILISK_V3_PID {
            Some(basilisk_v3())
        } else {
            None
        },
{
    if pid == BASILISK_V3_PID {
        Some(
            MouseSpec {
                pid: BASILISK_V3_PID,
                name: "Basilisk V3",
                model: "Basilisk V3",
                txid: 0x1F,
                led_count: 11,
                dpi_min: 100,
                dpi_max: 26000,
                dpi_steps: BASILISK_V3_STEPS,
            },
        )
    } else {
        None
    }
}

/// Whether a HID collection is the control interface of a known model. Some systems report
/// no usage for it, others the consumer collection.
pub fn matches_hid(vid: u16, pid: u16, interface: Option<u8>, usage_page: u16, usage: u16) -> (r:
    bool)
    ensures
        r == (vid == RAZER_VID && pid == BASILISK_V3_PID && interface == Some(CONTROL_INTERFACE)
            && (usage_page == 0 || (usage_page == 0x000C && usage == 0x0001))),
{
    let on_control = match interface {
        Some(n) => n == CONTROL_INTERFACE,
        None => false,
    };
    vid == RAZER_VID && spec_for(pid).is_some() && on_control && (usage_page == 0 || (usage_page
        == 0x000C && usage == 0x0001))
}

/// The place of one LED in a unit square: `x_num / x_den` from the left and
/// `y_num / y_den` from the top.
#[derive(Debug, Clone, Copy, PartialEq, Eq, Structural)]
pub struct LinePosition {
    pub id: u32,
    pub x_num: u32,
    pub x_den: u32,
    pub y_num: u32,
    pub y_den: u32,
}

/// The place of LED `i` of `count`: evenly spaced half way up, a single one in the middle.
pub open spec fn line_position(count: int, i: int) -> LinePosition {
    if count > 1 {
        LinePosition {
            id: i as u32,
            x_num: i as u32,
            x_den: (count - 1) as u32,
            y_num: 1,
            y_den: 2,
        }
    } else {
        LinePosition { id: i as u32, x_num: 1, x_den: 2, y_num: 1, y_den: 2 }
    }
}

/// Spaces LEDs evenly along a horizontal line.
pub fn led_positions(led_count: u32) -> (r: Vec<LinePosition>)
    ensures
        r@ == Seq::new(led_count as nat, |i: int| line_position(led_count as int, i)),
{
    let mut out: Vec<LinePosition> = Vec::new();
    let mut i: u32 = 0;
    while i < led_count
        invariant
            i <= led_count,
            out@ =~= Seq::new(i as nat, |k: int| line_position(led_count as int, k)),
        decreases led_count - i,
    {
        if led_count > 1 {
            out.push(
                LinePosition { id: i, x_num: i, x_den: led_count - 1, y_num: 1, y_den: 2 },
            );
        } else {
            out.push(LinePosition { id: i, x_num: 1, x_den: 2, y_num: 1, y_den: 2 });
        }
        i = i + 1;
    }
    out
}

/// The lighting of a model: one line of LEDs, no firmware effects.
pub fn build_descriptor(spec: &MouseSpec) -> (r: RgbDescriptor)
    ensures
        r.zones@ == seq![
            RgbZone {
                id: ZONE_ID,
                name: "Lighting",
                topology: ZoneTopology::Linear,
                led_count: spec.led_count,
            },
        ],
        r.native_effects@.len() == 0,
{
    let zones: Vec<RgbZone> = vec![
        RgbZone {
            id: ZONE_ID,
            name: "Lighting",
            topology: ZoneTopology::Linear,
            led_count: spec.led_count,
        },
    ];
    proof {
        assert(zones@ =~= seq![
            RgbZone {
                id: ZONE_ID,
                name: "Lighting",
                topology: ZoneTopology::Linear,
                led_count: spec.led_count,
            },
        ]);
    }
    RgbDescriptor { zones, native_effects: Vec::new() }
}

/// `dpi` moved into the range of a model.
pub open spec fn clamped(spec: MouseSpec, dpi: u16) -> u16 {
    if dpi < spec.dpi_min {
        spec.dpi_min
    } else if dpi > spec.dpi_max {
        spec.dpi_max
    } else {
        dpi
    }
}

/// Every step moved into the range of a model.
pub open spec fn clamped_all(spec: MouseSpec, steps: Seq<u16>) -> Seq<u16> {
    Seq::new(steps.len(), |i: int| clamped(spec, steps[i]))
}

/// An index moved into a list of `len` steps; 0 for an empty list.
pub open spec fn index_within(index: usize, len: nat) -> usize {
    if index < len {
        index
    } else if len == 0 {
        0
    } else {
        (len - 1) as usize
    }
}

/// How many sensitivities a range offers.
pub open spec fn offered_count(min: u16, max: u16) -> nat {
    if min > max {
        0
    } else {
        ((max - min) / DPI_STEP as int + 1) as nat
    }
}

/// The sensitivities a range offers, from its lower end up.
pub open spec fn offered(min: u16, max: u16) -> Seq<u16> {
    Seq::new(offered_count(min, max), |i: int| (min + i * DPI_STEP) as u16)
}

/// Lists the sensitivities a range offers.
pub fn available_dpis(min: u16, max: u16) -> (r: Vec<u16>)
    ensures
        r@ == offered(min, max),
{
    let mut out: Vec<u16> = Vec::new();
    let mut v: u32 = min as u32;
    while v <= max as u32
        invariant
            v == min + out@.len() * DPI_STEP,
            min <= max ==> v <= max + DPI_STEP,
            out@.len() <= offered_count(min, max),
            out@ =~= offered(min, max).take(out@.len() as int),
            min > max || v > max ==> out@.len() == offered_count(min, max),
        decreases max + DPI_STEP - v,
    {
        out.push(v as u16);
        v = v + DPI_STEP as u32;
    }
    proof {
        assert(offered(min, max).take(out@.len() as int) =~= offered(min, max));
    }
    out
}

/// The sensitivity settings.
#[derive(Debug)]
pub struct DpiState {
    pub steps: Vec<u16>,
    pub index: usize,
    pub current: u16,
}

/// A mouse.
#[derive(Debug)]
pub struct RazerMouse {
    pub id: String,
    pub serial_number: Option<String>,
    pub proto: Razer,
    pub spec: MouseSpec,
    pub dpi: DpiState,
    pub poll_rate: u8,
    /// What the device was asked to show last.
    pub rgb: Option<RgbState>,
}

/// The colours a state asks for; effect and engine states ask for none, and neither does a
/// per-LED state that leaves the mouse out.
pub open spec fn state_colors(state: RgbState, led_count: nat) -> Option<Seq<RgbColor>> {
    match state {
        RgbState::Static { color } => Some(Seq::new(led_count, |i: int| color)),
        RgbState::PerLed { zones } => match zone_named(zones@, ZONE_ID@) {
            Some(leds) => Some(led_frame(leds, led_count)),
            None => None,
        },
        _ => None,
    }
}

impl RazerMouse {
    /// The range of sensitivities is one, and the polling rate is on offer.
    pub open spec fn wf(&self) -> bool {
        &&& self.spec.dpi_min <= self.spec.dpi_max
        &&& self.poll_rate < POLL_RATES@.len()
        &&& self.proto.txid == self.spec.txid
    }

    /// Everything but the sensitivity is as before.
    pub open spec fn same_but_dpi(&self, before: &Self) -> bool {
        &&& self.id == before.id
        &&& self.serial_number == before.serial_number
        &&& self.proto == before.proto
        &&& self.spec == before.spec
        &&& self.poll_rate == before.poll_rate
        &&& self.rgb == before.rgb
    }

    /// The report that sets one sensitivity.
    pub open spec fn dpi_packet(&self, dpi: u16) -> Seq<u8> {
        dpi_report(self.proto.txid, dpi, dpi)
    }

    /// The report that shows a row of colours.
    pub open spec fn frame_packet(&self, colors: Seq<RgbColor>) -> Seq<u8> {
        report_bytes(
            self.proto.txid,
            CLASS_EXT_MATRIX,
            ID_CUSTOM_FRAME,
            CUSTOM_FRAME_DATA_SIZE,
            frame_args(0, 0, colors),
        )
    }

    /// Whether `r` is the answer to a request to show `colors`.
    pub open spec fn shows(
        &self,
        colors: Seq<RgbColor>,
        r: Result<Option<[u8; 91]>, MouseError>,
    ) -> bool {
        match r {
            Ok(None) => colors.len() == 0,
            Ok(Some(buf)) => 0 < colors.len() <= 256 && buf@ == self.frame_packet(colors),
            Err(e) => colors.len() > 256 && e == (MouseError::FrameTooLong {
                count: colors.len() as usize,
            }),
        }
    }

    /// A mouse with the steps of its model, the middle one selected.
    pub fn new(id: String, serial_number: Option<String>, spec: MouseSpec) -> (r: Self)
        requires
            spec.dpi_min <= spec.dpi_max,
        ensures
            r.wf(),
            r.id == id,
            r.serial_number == serial_number,
            r.spec == spec,
            r.dpi.steps@ == spec.dpi_steps@,
            r.dpi.index == 1,
            r.dpi.current == spec.dpi_steps@[1],
            r.poll_rate == 0,
            r.rgb is None,
    {
        let steps: Vec<u16> = vec![spec.dpi_steps[0], spec.dpi_steps[1], spec.dpi_steps[2]];
        let index: usize = steps.len() / 2;
        let current: u16 = steps[index];
        proof {
            assert(steps@ =~= spec.dpi_steps@);
        }
        RazerMouse {
            id,
            serial_number,
            proto: Razer::with_transport(spec.txid),
            spec,
            dpi: DpiState { steps, index, current },
            poll_rate: 0,
            rgb: None,
        }
    }

    /// Moves a sensitivity into the range of the model.
    pub fn clamp_dpi(&self, dpi: u16) -> (r: u16)
        requires
            self.wf(),
        ensures
            r == clamped(self.spec, dpi),
            self.spec.dpi_min <= r <= self.spec.dpi_max,
    {
        if dpi < self.spec.dpi_min {
            self.spec.dpi_min
        } else if dpi > self.spec.dpi_max {
            self.spec.dpi_max
        } else {
            dpi
        }
    }

    /// The first report a mouse gets.
    pub fn initialize(&self) -> (r: [u8; 91])
        ensures
            r@ == report_bytes(self.proto.txid, CLASS_EXT_MATRIX, 0x02, 0x0C, seq![0u8, 0u8, 8u8]),
    {
        self.proto.enable_custom_frame()
    }

    /// The report that shows a row of colours; none for no colours.
    fn write_leds(&self, colors: &[RgbColor]) -> (r: Result<Option<[u8; 91]>, MouseError>)
        ensures
            self.shows(colors@, r),
    {
        match self.proto.set_custom_frame(0, 0, colors) {
            Ok(report) => Ok(report),
            Err(e) => Err(MouseError::FrameTooLong { count: e.count }),
        }
    }

    /// The report that a state asks for.
    pub fn apply_state(&self, state: &RgbState) -> (r: Result<Option<[u8; 91]>, MouseError>)
        ensures
            match state_colors(*state, self.spec.led_count as nat) {
                Some(colors) => self.shows(colors, r),
                None => r == Ok::<Option<[u8; 91]>, MouseError>(None),
            },
    {
        let n: usize = self.spec.led_count as usize;
        match state {
            RgbState::Static { color } => {
                let colors: Vec<RgbColor> = solid_frame(*color, n);
                self.write_leds(colors.as_slice())
            },
            RgbState::PerLed { zones } => match find_zone(zones.as_slice(), ZONE_ID) {
                Some(leds) => {
                    let colors: Vec<RgbColor> = per_led_frame(leds.as_slice(), n);
                    self.write_leds(colors.as_slice())
                },
                None => Ok(None),
            },
            _ => Ok(None),
        }
    }

    /// Remembers the state that the device shows now.
    pub fn state_applied(&mut self, state: RgbState)
        ensures
            *final(self) == (RazerMouse { rgb: Some(state), ..*old(self) }),
    {
        self.rgb = Some(state);
    }

    /// The state that was applied last; none before the first.
    pub fn current_state(&self) -> (r: Option<&RgbState>)
        ensures
            match self.rgb {
                Some(state) => r == Some(&state),
                None => r is None,
            },
    {
        match &self.rgb {
            Some(state) => Some(state),
            None => None,
        }
    }

    /// The report that shows a frame of a zone.
    pub fn write_frame(&self, zone_id: &str, colors: &[RgbColor]) -> (r: Result<
        Option<[u8; 91]>,
        MouseError,
    >)
        ensures
            if zone_id@ == ZONE_ID@ {
                self.shows(colors@, r)
            } else {
                r == Err::<Option<[u8; 91]>, MouseError>(MouseError::UnknownZone)
            },
    {
        if !same_text(zone_id, ZONE_ID) {
            return Err(MouseError::UnknownZone);
        }
        self.write_leds(colors)
    }

    /// The sensitivity settings, with what there is to choose from.
    pub fn dpi_status(&self) -> (r: DpiStatus)
        ensures
            r.steps@ == self.dpi.steps@,
            r.current_index == self.dpi.index,
            r.current_dpi == self.dpi.current,
            r.available_dpis@ == offered(self.spec.dpi_min, self.spec.dpi_max),
            r.mode == DpiMode::Host,
    {
        DpiStatus {
            steps: copy_steps(self.dpi.steps.as_slice()),
            current_index: self.dpi.index,
            current_dpi: self.dpi.current,
            available_dpis: available_dpis(self.spec.dpi_min, self.spec.dpi_max),
            mode: DpiMode::Host,
        }
    }

    /// Replaces the steps; the selected one, if any is left, becomes the sensitivity.
    /// Returns the report that sets it.
    pub fn set_dpi_steps(&mut self, steps: &[u16]) -> (r: Option<[u8; 91]>)
        requires
            old(self).wf(),
        ensures
            final(self).wf(),
            final(self).same_but_dpi(old(self)),
            final(self).dpi.steps@ == clamped_all(old(self).spec, steps@),
            final(self).dpi.index == index_within(old(self).dpi.index, steps@.len()),
            match r {
                Some(buf) => {
                    &&& steps@.len() > 0
                    &&& final(self).dpi.current == clamped(
                        old(self).spec,
                        steps@[index_within(old(self).dpi.index, steps@.len()) as int],
                    )
                    &&& buf@ == old(self).dpi_packet(final(self).dpi.current)
                },
                None => steps@.len() == 0 && final(self).dpi.current == old(self).dpi.current,
            },
    {
        let n: usize = steps.len();
        let mut list: Vec<u16> = Vec::new();
        let mut i: usize = 0;
        while i < n
            invariant
                i <= n,
                n == steps@.len(),
                self.wf(),
                *self == *old(self),
                list@ =~= clamped_all(old(self).spec, steps@.take(i as int)),
            decreases n - i,
        {
            list.push(self.clamp_dpi(steps[i]));
            i = i + 1;
        }
        proof {
            assert(steps@.take(n as int) =~= steps@);
        }
        self.dpi.steps = list;
        if self.dpi.index >= n {
            self.dpi.index = if n == 0 {
                0
            } else {
                n - 1
            };
        }
        if n == 0 {
            return None;
        }
        let v: u16 = self.dpi.steps[self.dpi.index];
        self.dpi.current = v;
        Some(self.proto.set_dpi(v, v))
    }

    /// Selects a step. Returns the report that sets it.
    pub fn set_dpi_index(&mut self, index: usize) -> (r: Result<[u8; 91], MouseError>)
        requires
            old(self).wf(),
        ensures
            final(self).wf(),
            final(self).same_but_dpi(old(self)),
            final(self).dpi.steps@ == old(self).dpi.steps@,
            match r {
                Ok(buf) => {
                    &&& index < old(self).dpi.steps@.len()
                    &&& final(self).dpi.index == index
                    &&& final(self).dpi.current == old(self).dpi.steps@[index as int]
                    &&& buf@ == old(self).dpi_packet(final(self).dpi.current)
                },
                Err(e) => {
                    &&& index >= old(self).dpi.steps@.len()
                    &&& e == (MouseError::IndexOutOfRange { index })
                    &&& *final(self) == *old(self)
                },
            },
    {
        if index >= self.dpi.steps.len() {
            return Err(MouseError::IndexOutOfRange { index });
        }
        let v: u16 = self.dpi.steps[index];
        self.dpi.index = index;
        self.dpi.current = v;
        Ok(self.proto.set_dpi(v, v))
    }

    /// Sets a sensitivity that need not be a step. Returns the report that sets it.
    pub fn set_dpi_direct(&mut self, dpi: u16) -> (r: [u8; 91])
        requires
            old(self).wf(),
        ensures
            final(self).wf(),
            final(self).same_but_dpi(old(self)),
            final(self).dpi.steps@ == old(self).dpi.steps@,
            final(self).dpi.index == old(self).dpi.index,
            final(self).dpi.current == clamped(old(self).spec, dpi),
            r@ == old(self).dpi_packet(clamped(old(self).spec, dpi)),
    {
        let v: u16 = self.clamp_dpi(dpi);
        self.dpi.current = v;
        self.proto.set_dpi(v, v)
    }

    /// The polling rate as a choice.
    pub fn to_wire(&self) -> (r: Choice)
        ensures
            r.key == "poll_rate",
            r.label == "Polling Rate",
            r.options@.len() == POLL_RATES@.len(),
            forall|i: int|
                #![trigger r.options@[i]]
                0 <= i < POLL_RATES@.len() ==> r.options@[i].id@ == POLL_RATES@[i].1@
                    && r.options@[i].label == POLL_RATES@[i].1,
            r.selected == self.poll_rate,
            r.category == "Mouse",
            r.display == ChoiceDisplay::List,
    {
        let mut options: Vec<ChoiceOption> = Vec::new();
        let mut i: usize = 0;
        while i < 3
            invariant
                i <= 3,
                options@.len() == i,
                forall|k: int|
                    #![trigger options@[k]]
                    0 <= k < i ==> options@[k].id@ == POLL_RATES@[k].1@ && options@[k].label
                        == POLL_RATES@[k].1,
            decreases 3 - i,
        {
            let label: &'static str = POLL_RATES[i].1;
            options.push(ChoiceOption { id: owned(label), label });
            i = i + 1;
        }
        Choice {
            key: "poll_rate",
            label: "Polling Rate",
            options,
            selected: self.poll_rate as usize,
            category: "Mouse",
            display: ChoiceDisplay::List,
        }
    }

    /// Selects a polling rate. Returns the report that sets it.
    pub fn set_choice(&mut self, key: &str, selected: usize) -> (r: Result<[u8; 91], MouseError>)
        requires
            old(self).wf(),
        ensures
            final(self).wf(),
            final(self).dpi == old(self).dpi,
            final(self).proto == old(self).proto,
            final(self).spec == old(self).spec,
            final(self).id == old(self).id,
            final(self).serial_number == old(self).serial_number,
            final(self).rgb == old(self).rgb,
            match r {
                Ok(buf) => {
                    &&& key@ == "poll_rate"@
                    &&& selected < POLL_RATES@.len()
                    &&& final(self).poll_rate == selected
                    &&& buf@ == report_bytes(
                        old(self).proto.txid,
                        CLASS_MISC,
                        ID_SET_POLLING,
                        1,
                        seq![POLL_RATES@[selected as int].0],
                    )
                },
                Err(e) => {
                    &&& final(self).poll_rate == old(self).poll_rate
                    &&& if key@ != "poll_rate"@ {
                        e == MouseError::UnknownKey
                    } else {
                        selected >= POLL_RATES@.len() && e == (MouseError::IndexOutOfRange {
                            index: selected,
                        })
                    }
                },
            },
    {
        if !same_text(key, "poll_rate") {
            return Err(MouseError::UnknownKey);
        }
        if selected >= 3 {
            return Err(MouseError::IndexOutOfRange { index: selected });
        }
        self.poll_rate = selected as u8;
        let code: u8 = POLL_RATES[selected].0;
        Ok(self.proto.set_polling_rate(code))
    }

    /// The name shown for the mouse.
    pub fn name(&self) -> (r: &'static str)
        ensures
            r == self.spec.name,
    {
        self.spec.name
    }

    /// Who makes it.
    pub fn vendor(&self) -> (r: &'static str)
        ensures
            r == "Razer",
    {
        "Razer"
    }

    /// The model.
    pub fn model(&self) -> (r: &'static str)
        ensures
            r == self.spec.model,
    {
        self.spec.model
    }

    /// What kind of device this is.
    pub fn wire_device_type(&self) -> (r: DeviceType)
        ensures
            r == DeviceType::Mouse,
    {
        DeviceType::Mouse
    }
}

/// Copies a list of steps.
fn copy_steps(steps: &[u16]) -> (r: Vec<u16>)
    ensures
        r@ == steps@,
{
    let n: usize = steps.len();
    let mut out: Vec<u16> = Vec::new();
    let mut i: usize = 0;
    while i < n
        invariant
            i <= n,
            n == steps@.len(),
            out@ =~= steps@.take(i as int),
        decreases n - i,
    {
        out.push(steps[i]);
        i = i + 1;
    }
    out
}

/// LEDs span the line: they keep their order, the first stands at its start and the last at
/// its end.
pub proof fn leds_span_the_line(count: int, i: int, j: int)
    requires
        1 < count <= u32::MAX,
        0 <= i < j < count,
    ensures
        line_position(count, i).id == i,
        line_position(count, 0).x_num == 0,
        line_position(count, count - 1).x_num == line_position(count, count - 1).x_den,
        line_position(count, i).x_den == line_position(count, j).x_den,
        line_position(count, i).x_num < line_position(count, j).x_num,
{
}

/// A whole frame of the known model fits in one report.
pub proof fn frames_fit_a_report(colors: Seq<RgbColor>)
    requires
        colors.len() == basilisk_v3().led_count,
    ensures
        run_fits(0, colors.len()),
        frame_args(0, 0, colors).len() <= crate::razer::protocols::razer::ARGS_LEN,
{
}

/// Once the steps are set, selecting any one of them gives a sensitivity within the range
/// of the model.
pub proof fn steps_stay_in_range(spec: MouseSpec, steps: Seq<u16>, i: int)
    requires
        spec.dpi_min <= spec.dpi_max,
        0 <= i < steps.len(),
    ensures
        spec.dpi_min <= clamped_all(spec, steps)[i] <= spec.dpi_max,
        clamped_all(spec, clamped_all(spec, steps)) == clamped_all(spec, steps),
{
    assert(clamped_all(spec, clamped_all(spec, steps)) =~= clamped_all(spec, steps));
}

/// The one known model is `0099`: eleven LEDs, transaction id `1F`, sensitivities from
/// 100 to 26000 and the steps 800, 1600 and 3200. It is matched on interface 3 of vendor
/// `1532`, without a usage or as the consumer collection.
pub proof fn the_known_model(
    vid: u16,
    pid: u16,
    interface: Option<u8>,
    usage_page: u16,
    usage: u16,
    s: Option<MouseSpec>,
    m: bool,
)
    requires
        call_ensures(spec_for, (pid,), s),
        call_ensures(matches_hid, (vid, pid, interface, usage_page, usage), m),
    ensures
        s is Some <==> pid == 0x0099,
        s matches Some(k) ==> {
            &&& k.pid == pid && k.name == "Basilisk V3" && k.model == "Basilisk V3"
            &&& k.txid == 0x1F && k.led_count == 11
            &&& k.dpi_min == 100 && k.dpi_max == 26000
            &&& k.dpi_steps@ == seq![800u16, 1600, 3200]
        },
        m <==> s is Some && vid == 0x1532 && interface == Some(3u8) && (usage_page == 0 || (
        usage_page == 12 && usage == 1)),
{
    let t = BASILISK_V3_STEPS;
    assert(t@.len() == 3);
    assert(t@ =~= seq![800u16, 1600, 3200]);
}

/// LEDs keep their numbers and stand half way up, the first at the left end and each one
/// an equal step further right, up to the right end; a single one stands in the middle.
pub proof fn leds_are_evenly_spaced(led_count: u32, r: Vec<LinePosition>, i: int)
    requires
        call_ensures(led_positions, (led_count,), r),
        0 <= i < led_count,
    ensures
        r@.len() == led_count,
        r@[i].id == i,
        2 * r@[i].y_num == r@[i].y_den,
        r@[i].x_den > 0,
        led_count == 1 ==> 2 * r@[i].x_num == r@[i].x_den,
        led_count > 1 ==> r@[i].x_num == i && r@[i].x_den == led_count - 1,
{
}

/// All LEDs make one line, the zone `mouse`.
pub proof fn mice_have_one_zone(spec: MouseSpec, r: RgbDescriptor)
    requires
        call_ensures(build_descriptor, (&spec,), r),
    ensures
        r.zones@.len() == 1,
        r.zones@[0].id == "mouse" && r.zones@[0].name == "Lighting",
        r.zones@[0].topology == ZoneTopology::Linear,
        r.zones@[0].led_count == spec.led_count,
        r.native_effects@.len() == 0,
{
}

/// What is offered begins at the lower end, goes up by hundreds and stops when the next
/// hundred would pass the upper end; a range that is none offers nothing.
pub proof fn offers_go_up_by_hundreds(min: u16, max: u16, r: Vec<u16>, i: int)
    requires
        call_ensures(available_dpis, (min, max), r),
        0 <= i < r@.len(),
    ensures
        min <= max,
        r@[0] == min,
        min <= r@[i] <= max,
        i + 1 < r@.len() ==> r@[i + 1] == r@[i] + 100,
        i + 1 == r@.len() ==> r@[i] + 100 > max,
{
    assert(offered_count(min, max) == r@.len());
    let n = (max - min) / 100;
    assert(100 * n <= max - min < 100 * n + 100);
    assert(i <= n);
}

/// A range with an upper end no lower than its lower end offers something, and no other.
pub proof fn ranges_offer_something(min: u16, max: u16, r: Vec<u16>)
    requires
        call_ensures(available_dpis, (min, max), r),
    ensures
        r@.len() > 0 <==> min <= max,
{
}

/// A new mouse has the steps of its model with the second one selected, and polls at the
/// first rate. Its reports carry the transaction id of the model.
pub proof fn new_mice_start_in_the_middle(
    id: String,
    serial_number: Option<String>,
    spec: MouseSpec,
    d: RazerMouse,
    s: DpiStatus,
    c: Choice,
)
    requires
        spec.dpi_min <= spec.dpi_max,
        call_ensures(RazerMouse::new, (id, serial_number, spec), d),
        call_ensures(RazerMouse::dpi_status, (&d,), s),
        call_ensures(RazerMouse::to_wire, (&d,), c),
    ensures
        s.steps@ == spec.dpi_steps@,
        s.current_index == 1,
        s.current_dpi == spec.dpi_steps@[1],
        c.selected == 0,
        d.proto.txid == spec.txid,
        d.id == id && d.serial_number == serial_number && d.rgb is None,
{
}

/// A sensitivity within the range of the model stays; one below or above it becomes the
/// nearer end.
pub proof fn sensitivities_are_moved_into_range(d: RazerMouse, dpi: u16, r: u16)
    requires
        d.wf(),
        call_ensures(RazerMouse::clamp_dpi, (&d, dpi), r),
    ensures
        d.spec.dpi_min <= dpi <= d.spec.dpi_max ==> r == dpi,
        dpi < d.spec.dpi_min ==> r == d.spec.dpi_min,
        dpi > d.spec.dpi_max ==> r == d.spec.dpi_max,
{
}

/// Mice are first switched to custom frames.
pub proof fn mice_start_with_custom_frames(d: RazerMouse, r: [u8; 91], e: [u8; 91])
    requires
        call_ensures(RazerMouse::initialize, (&d,), r),
        call_ensures(Razer::enable_custom_frame, (&d.proto,), e),
    ensures
        r@ == e@,
{
}

/// One colour for all goes to every LED; colours by LED are those of the zone `mouse`,
/// and without that zone, as for every other state, nothing is sent. What is shown is row
/// 0 from column 0 on.
pub proof fn states_fill_the_row(
    d: RazerMouse,
    state: RgbState,
    r: Result<Option<[u8; 91]>, MouseError>,
    zones: &[ZoneLeds],
    zone: Option<&Vec<(u32, RgbColor)>>,
    leds: &[(u32, RgbColor)],
    frame: Vec<RgbColor>,
    colors: &[RgbColor],
    sent: Result<Option<[u8; 91]>, RunTooLong>,
)
    requires
        call_ensures(RazerMouse::apply_state, (&d, &state), r),
        state matches RgbState::PerLed { zones: z } ==> z@ == zones@,
        call_ensures(find_zone, (zones, "mouse"), zone),
        zone matches Some(z) ==> z@ == leds@,
        call_ensures(per_led_frame, (leds, d.spec.led_count as usize), frame),
        state is PerLed ==> colors@ == frame@,
        state matches RgbState::Static { color } ==> colors@.len() == d.spec.led_count && forall|
            i: int,
        |
            0 <= i < colors@.len() ==> #[trigger] colors@[i] == color,
        call_ensures(Razer::set_custom_frame, (&d.proto, 0u8, 0u8, colors), sent),
    ensures
        state is Static || (state is PerLed && zone is Some) ==> {
            &&& sent is Err ==> r == Err::<Option<[u8; 91]>, MouseError>(
                MouseError::FrameTooLong { count: colors@.len() as usize },
            )
            &&& sent is Ok ==> r is Ok && (r->Ok_0 is Some <==> sent->Ok_0 is Some)
            &&& sent is Ok && sent->Ok_0 is Some ==> r->Ok_0->Some_0@ == sent->Ok_0->Some_0@
        },
        state is PerLed && zone is None ==> r == Ok::<Option<[u8; 91]>, MouseError>(None),
        !(state is Static) && !(state is PerLed) ==> r == Ok::<Option<[u8; 91]>, MouseError>(None),
{
    if let RgbState::Static { color } = state {
        assert(colors@ =~= Seq::new(d.spec.led_count as nat, |i: int| color));
    }
}

/// A frame for the zone `mouse` is sent as row 0 from column 0 on; a frame for another
/// zone is refused.
pub proof fn frames_fill_the_row(
    d: RazerMouse,
    zone_id: &str,
    colors: &[RgbColor],
    r: Result<Option<[u8; 91]>, MouseError>,
    sent: Result<Option<[u8; 91]>, RunTooLong>,
)
    requires
        call_ensures(RazerMouse::write_frame, (&d, zone_id, colors), r),
        call_ensures(Razer::set_custom_frame, (&d.proto, 0u8, 0u8, colors), sent),
    ensures
        zone_id@ != "mouse"@ ==> r == Err::<Option<[u8; 91]>, MouseError>(MouseError::UnknownZone),
        zone_id@ == "mouse"@ && sent is Err ==> r == Err::<Option<[u8; 91]>, MouseError>(
            MouseError::FrameTooLong { count: colors@.len() as usize },
        ),
        zone_id@ == "mouse"@ && sent is Ok ==> r is Ok && (r->Ok_0 is Some <==> sent->Ok_0 is Some),
        zone_id@ == "mouse"@ && sent is Ok && sent->Ok_0 is Some ==> r->Ok_0->Some_0@
            == sent->Ok_0->Some_0@,
{
}

/// The state that was applied last is the one that is told.
pub proof fn applied_states_are_told(d: &mut RazerMouse, state: RgbState, r: Option<&RgbState>)
    requires
        call_ensures(RazerMouse::state_applied, (d, state), ()),
        call_ensures(RazerMouse::current_state, (&*final(d),), r),
    ensures
        r == Some(&state),
        final(d).dpi == old(d).dpi && final(d).poll_rate == old(d).poll_rate,
        final(d).proto == old(d).proto && final(d).spec == old(d).spec,
{
}

/// New steps are shown in order, each within the range of the model. The selection stays
/// where there still is one and goes to the last step otherwise; the step selected is
/// sent for both directions and shown.
pub proof fn new_steps_are_shown(
    d: &mut RazerMouse,
    steps: &[u16],
    r: Option<[u8; 91]>,
    s: DpiStatus,
    i: int,
    step: u16,
    sent: [u8; 91],
)
    requires
        old(d).wf(),
        call_ensures(RazerMouse::set_dpi_steps, (d, steps), r),
        call_ensures(RazerMouse::dpi_status, (&*final(d),), s),
        0 <= i < steps@.len(),
        call_ensures(RazerMouse::clamp_dpi, (&*old(d), steps@[i]), step),
        call_ensures(Razer::set_dpi, (&old(d).proto, step, step), sent),
    ensures
        s.steps@.len() == steps@.len(),
        s.steps@[i] == step,
        old(d).dpi.index < steps@.len() ==> s.current_index == old(d).dpi.index,
        old(d).dpi.index >= steps@.len() ==> s.current_index == steps@.len() - 1,
        i == s.current_index ==> s.current_dpi == step && r is Some && r->Some_0@ == sent@,
{
}

/// Without steps nothing is sent, and the sensitivity stays.
pub proof fn no_steps_change_nothing(
    d: &mut RazerMouse,
    steps: &[u16],
    r: Option<[u8; 91]>,
    s: DpiStatus,
)
    requires
        old(d).wf(),
        call_ensures(RazerMouse::set_dpi_steps, (d, steps), r),
        call_ensures(RazerMouse::dpi_status, (&*final(d),), s),
        steps@.len() == 0,
    ensures
        r is None,
        s.steps@.len() == 0 && s.current_index == 0,
        s.current_dpi == old(d).dpi.current,
{
}

/// Selecting a step sends that step for both directions and shows it; an index without a
/// step is refused, and then all is as before.
pub proof fn selected_steps_are_shown(
    d: &mut RazerMouse,
    index: usize,
    r: Result<[u8; 91], MouseError>,
    before: DpiStatus,
    after: DpiStatus,
    sent: [u8; 91],
)
    requires
        old(d).wf(),
        call_ensures(RazerMouse::dpi_status, (&*old(d),), before),
        call_ensures(RazerMouse::set_dpi_index, (d, index), r),
        call_ensures(RazerMouse::dpi_status, (&*final(d),), after),
        index < before.steps@.len() ==> call_ensures(
            Razer::set_dpi,
            (&old(d).proto, before.steps@[index as int], before.steps@[index as int]),
            sent,
        ),
    ensures
        after.steps@ == before.steps@,
        r is Ok <==> index < before.steps@.len(),
        r matches Ok(buf) ==> buf@ == sent@ && after.current_index == index && after.current_dpi
            == before.steps@[index as int],
        r matches Err(e) ==> e == (MouseError::IndexOutOfRange { index }) && after.current_index
            == before.current_index && after.current_dpi == before.current_dpi,
{
}

/// A sensitivity that is no step is sent for both directions, within the range of the
/// model, and shown; steps and selection stay.
pub proof fn direct_sensitivities_are_shown(
    d: &mut RazerMouse,
    dpi: u16,
    r: [u8; 91],
    step: u16,
    sent: [u8; 91],
    s: DpiStatus,
)
    requires
        old(d).wf(),
        call_ensures(RazerMouse::set_dpi_direct, (d, dpi), r),
        call_ensures(RazerMouse::clamp_dpi, (&*old(d), dpi), step),
        call_ensures(Razer::set_dpi, (&old(d).proto, step, step), sent),
        call_ensures(RazerMouse::dpi_status, (&*final(d),), s),
    ensures
        r@ == sent@,
        s.current_dpi == step,
        s.steps@ == old(d).dpi.steps@ && s.current_index == old(d).dpi.index,
        s.mode == DpiMode::Host,
{
}

/// What there is to choose from is what the range of the model offers.
pub proof fn offers_follow_the_model(d: RazerMouse, s: DpiStatus, r: Vec<u16>)
    requires
        call_ensures(RazerMouse::dpi_status, (&d,), s),
        call_ensures(available_dpis, (d.spec.dpi_min, d.spec.dpi_max), r),
    ensures
        s.available_dpis@ == r@,
{
}

/// The rates are 1000, 500 and 125 Hz, sent as 1, 2 and 8. A rate that was selected is
/// the one that is shown; another key and another number are refused, and then the rate
/// stays.
pub proof fn selected_rates_are_shown(
    d: &mut RazerMouse,
    key: &str,
    selected: usize,
    r: Result<[u8; 91], MouseError>,
    c: Choice,
    sent: [u8; 91],
)
    requires
        old(d).wf(),
        call_ensures(RazerMouse::set_choice, (d, key, selected), r),
        call_ensures(RazerMouse::to_wire, (&*final(d),), c),
        call_ensures(
            Razer::set_polling_rate,
            (
                &old(d).proto,
                if selected == 0 {
                    1u8
                } else if selected == 1 {
                    2u8
                } else {
                    8u8
                },
            ),
            sent,
        ),
    ensures
        c.key == "poll_rate" && c.label == "Polling Rate" && c.category == "Mouse",
        c.display == ChoiceDisplay::List,
        c.options@.len() == 3,
        c.options@[0].label == "1000 Hz" && c.options@[1].label == "500 Hz" && c.options@[2].label
            == "125 Hz",
        c.options@[0].id@ == "1000 Hz"@ && c.options@[1].id@ == "500 Hz"@ && c.options@[2].id@
            == "125 Hz"@,
        r is Ok <==> key@ == "poll_rate"@ && selected < 3,
        r matches Ok(buf) ==> buf@ == sent@ && c.selected == selected,
        r is Err ==> c.selected == old(d).poll_rate,
        r is Err && key@ != "poll_rate"@ ==> r->Err_0 == MouseError::UnknownKey,
        r is Err && key@ == "poll_rate"@ ==> r->Err_0 == (MouseError::IndexOutOfRange {
            index: selected,
        }),
{
    let t = POLL_RATES;
    assert(t@.len() == 3);
    assert(t@[0].0 == 1 && t@[1].0 == 2 && t@[2].0 == 8);
    assert(t@[0].1 == "1000 Hz" && t@[1].1 == "500 Hz" && t@[2].1 == "125 Hz");
    assert(c.options@[0].label == POLL_RATES@[0].1);
    assert(c.options@[1].label == POLL_RATES@[1].1);
    assert(c.options@[2].label == POLL_RATES@[2].1);
}

/// A mouse is shown under the names of its model.
pub proof fn mice_have_their_names(
    d: RazerMouse,
    name: &'static str,
    vendor: &'static str,
    model: &'static str,
    kind: DeviceType,
)
    requires
        call_ensures(RazerMouse::name, (&d,), name),
        call_ensures(RazerMouse::vendor, (&d,), vendor),
        call_ensures(RazerMouse::model, (&d,), model),
        call_ensures(RazerMouse::wire_device_type, (&d,), kind),
    ensures
        name == d.spec.name && vendor == "Razer" && model == d.spec.model,
        kind == DeviceType::Mouse,
{
}

} // verus!
