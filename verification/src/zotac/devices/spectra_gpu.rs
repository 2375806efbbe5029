//! Lighting of Zotac SPECTRA graphics cards: three single-LED zones and the effects of the
//! controller.

use crate::rgb::{
    black, find_param, find_zone, led_frame, no_light, param_named, per_led_frame, zone_named,
    EffectParam, EffectParamDescriptor, EffectParamValue, NativeEffect, ParamKind, RgbColor,
    RgbDescriptor, RgbState, RgbZone, ZoneLeds, ZoneTopology,
};
use crate::text::{decimal, decimal_string, hex, owned, push_decimal, push_hex, same_text};
use crate::zotac::protocols::spectra_blackwell::{
    direction_code, every_block_is_committed, frame_regs, mode_code, zone_writes, Direction, Mode,
    RegWrite, ZoneFrame, ZotacBlackwellProtocol, ZOTAC_ADDR,
};
use crate::types::DeviceType;
use vstd::prelude::*;

verus! {

/// The zones: id, name and index.
pub const ZONES: [(&'static str, &'static str, u8); 3] = [
    ("logo", "Logo", 0x00),
    ("side_bar", "Side Bar", 0x01),
    ("infinity_mirror", "Infinity Mirror", 0x02),
];

/// The effects: id, name, mode, whether they take a colour, whether they take a direction.
pub const EFFECTS: [(&'static str, &'static str, Mode, bool, bool); 12] = [
    ("breathe", "Breathe", Mode::Breathe, true, false),
    ("fade", "Fade", Mode::Fade, false, false),
    ("wink", "Wink", Mode::Wink, true, false),
    ("glide", "Glide", Mode::Glide, true, true),
    ("prism", "Prism", Mode::Prism, false, true),
    ("bokeh", "Bokeh", Mode::Bokeh, true, false),
    ("beacon", "Beacon", Mode::Beacon, true, false),
    ("tandem", "Tandem", Mode::Tandem, true, false),
    ("tidal", "Tidal", Mode::Tidal, true, true),
    ("astra", "Astra", Mode::Astra, true, false),
    ("cosmic", "Cosmic", Mode::Cosmic, true, false),
    ("volta", "Volta", Mode::Volta, true, false),
];

/// Brightness of everything shown, in percent.
pub const FULL_BRIGHTNESS: u8 = 100;

/// Speed of an effect that is given none, in percent.
pub const DEFAULT_SPEED: u8 = 50;

/// Why a request was refused.
#[derive(Debug, Clone, Copy, PartialEq, Eq, Structural)]
pub enum SpectraError {
    UnknownEffect,
    UnknownZone,
}

/// The position of the first effect with an id, from `from` on.
pub open spec fn effect_from(id: Seq<char>, from: int) -> Option<int>
    decreases EFFECTS@.len() - from,
{
    if from < 0 || from >= EFFECTS@.len() {
        None
    } else if EFFECTS@[from].0@ == id {
        Some(from)
    } else {
        effect_from(id, from + 1)
    }
}

/// The position of the effect with an id.
pub fn effect_by_id(id: &str) -> (r: Option<usize>)
    ensures
        match r {
            Some(i) => i < EFFECTS@.len() && effect_from(id@, 0) == Some(i as int),
            None => effect_from(id@, 0) is None,
        },
{
    let mut i: usize = 0;
    while i < 12
        invariant
            i <= 12,
            effect_from(id@, 0) == effect_from(id@, i as int),
        decreases 12 - i,
    {
        if same_text(EFFECTS[i].0, id) {
            return Some(i);
        }
        i = i + 1;
    }
    None
}

/// The position of the first zone with an id, from `from` on.
pub open spec fn zone_from(id: Seq<char>, from: int) -> Option<int>
    decreases ZONES@.len() - from,
{
    if from < 0 || from >= ZONES@.len() {
        None
    } else if ZONES@[from].0@ == id {
        Some(from)
    } else {
        zone_from(id, from + 1)
    }
}

/// A speed in percent: the nearest whole number, halves up, within 0 and 100.
pub open spec fn percent(thousandths: int) -> int {
    if thousandths < 0 {
        0
    } else if (thousandths + 500) / 1000 > 100 {
        100
    } else {
        (thousandths + 500) / 1000
    }
}

/// The speed that the parameters ask for.
pub open spec fn speed_of(params: Seq<EffectParam>) -> u8 {
    match param_named(params, "speed"@) {
        Some(EffectParamValue::Number(n)) => percent(n as int) as u8,
        _ => DEFAULT_SPEED,
    }
}

/// Reads the speed.
pub fn effect_speed(params: &[EffectParam]) -> (r: u8)
    ensures
        r == speed_of(params@),
        r <= 100,
{
    match find_param(params, "speed") {
        Some(EffectParamValue::Number(n)) => {
            let v: i64 = *n;
            if v < 0 {
                0
            } else if v >= 100_000 {
                100
            } else {
                ((v + 500) / 1000) as u8
            }
        },
        _ => DEFAULT_SPEED,
    }
}

/// The direction that the parameters ask for.
pub open spec fn direction_of(params: Seq<EffectParam>) -> Direction {
    match param_named(params, "direction"@) {
        Some(EffectParamValue::Text(t)) => if t@ == "right"@ {
            Direction::Right
        } else {
            Direction::Left
        },
        _ => Direction::Left,
    }
}

/// Reads the direction.
pub fn effect_direction(params: &[EffectParam]) -> (r: Direction)
    ensures
        r == direction_of(params@),
{
    match find_param(params, "direction") {
        Some(EffectParamValue::Text(t)) => if same_text(t.as_str(), "right") {
            Direction::Right
        } else {
            Direction::Left
        },
        _ => Direction::Left,
    }
}

/// The colour that the parameters ask for; red where they ask for none.
pub open spec fn color_of(params: Seq<EffectParam>) -> RgbColor {
    match param_named(params, "color"@) {
        Some(EffectParamValue::Color(c)) => c,
        _ => RgbColor { r: 255, g: 0, b: 0 },
    }
}

/// Reads the colour.
fn effect_color(params: &[EffectParam]) -> (r: RgbColor)
    ensures
        r == color_of(params@),
{
    match find_param(params, "color") {
        Some(EffectParamValue::Color(c)) => *c,
        _ => RgbColor { r: 255, g: 0, b: 0 },
    }
}

/// A zone in one steady colour.
pub open spec fn steady(zone: u8, color: RgbColor) -> ZoneFrame {
    ZoneFrame {
        zone,
        mode: Mode::Static,
        color1: color,
        color2: black(),
        brightness: FULL_BRIGHTNESS,
        speed: 0,
        direction: Direction::Left,
    }
}

/// The colour of the only LED of zone `z`.
pub open spec fn zone_color(zones: Seq<ZoneLeds>, z: int) -> RgbColor {
    match zone_named(zones, ZONES@[z].0@) {
        Some(leds) => led_frame(leds, 1)[0],
        None => black(),
    }
}

/// The frames that a state asks for; `None` for an unknown effect.
pub open spec fn state_frames(state: RgbState) -> Option<Seq<ZoneFrame>> {
    match state {
        RgbState::Static { color } => Some(
            Seq::new(ZONES@.len(), |z: int| steady(ZONES@[z].2, color)),
        ),
        RgbState::PerLed { zones } => Some(
            Seq::new(ZONES@.len(), |z: int| steady(ZONES@[z].2, zone_color(zones@, z))),
        ),
        RgbState::NativeEffect { id, params } => match effect_from(id@, 0) {
            Some(e) => Some(
                Seq::new(
                    ZONES@.len(),
                    |z: int|
                        ZoneFrame {
                            zone: ZONES@[z].2,
                            mode: EFFECTS@[e].2,
                            color1: color_of(params@),
                            color2: black(),
                            brightness: FULL_BRIGHTNESS,
                            speed: speed_of(params@),
                            direction: direction_of(params@),
                        },
                ),
            ),
            None => None,
        },
        _ => Some(Seq::empty()),
    }
}

/// Whether `p` is the colour parameter.
pub open spec fn is_color_param(p: EffectParamDescriptor) -> bool {
    &&& p.id == "color"
    &&& p.label == "Color"
    &&& p.kind is Color
    &&& p.default == EffectParamValue::Color(RgbColor { r: 255, g: 0, b: 0 })
}

/// Whether `p` is the speed parameter.
pub open spec fn is_speed_param(p: EffectParamDescriptor) -> bool {
    &&& p.id == "speed"
    &&& p.label == "Speed"
    &&& p.kind == (ParamKind::Range { min: 0, max: 100_000, step: 1000 })
    &&& p.default == EffectParamValue::Number(50_000)
}

/// Whether `p` is the direction parameter.
pub open spec fn is_direction_param(p: EffectParamDescriptor) -> bool {
    &&& p.id == "direction"
    &&& p.label == "Direction"
    &&& match p.kind {
        ParamKind::Enum { options } => options@ == seq!["left", "right"],
        _ => false,
    }
    &&& match p.default {
        EffectParamValue::Text(t) => t@ == "left"@,
        _ => false,
    }
}

/// Whether `params` are the parameters of effect `e`: a colour where it takes one, the
/// speed, a direction where it takes one.
pub open spec fn params_of(e: int, params: Seq<EffectParamDescriptor>) -> bool {
    let color: int = if EFFECTS@[e].3 {
        1
    } else {
        0
    };
    let direction: int = if EFFECTS@[e].4 {
        1
    } else {
        0
    };
    &&& params.len() == color + 1 + direction
    &&& EFFECTS@[e].3 ==> is_color_param(params[0])
    &&& is_speed_param(params[color])
    &&& EFFECTS@[e].4 ==> is_direction_param(params[color + 1])
}

/// Whether `d` lists every zone, each with one LED, and every effect with its parameters.
pub open spec fn is_descriptor(d: RgbDescriptor) -> bool {
    &&& d.zones@ == Seq::new(
        ZONES@.len(),
        |z: int|
            RgbZone {
                id: ZONES@[z].0,
                name: ZONES@[z].1,
                topology: ZoneTopology::Linear,
                led_count: 1,
            },
    )
    &&& d.native_effects@.len() == EFFECTS@.len()
    &&& forall|e: int|
        #![trigger d.native_effects@[e]]
        0 <= e < EFFECTS@.len() ==> d.native_effects@[e].id == EFFECTS@[e].0
            && d.native_effects@[e].name == EFFECTS@[e].1 && params_of(
            e,
            d.native_effects@[e].params@,
        )
}

/// The parameters of effect `e`.
fn effect_params(e: usize) -> (r: Vec<EffectParamDescriptor>)
    requires
        e < EFFECTS@.len(),
    ensures
        params_of(e as int, r@),
{
    let mut params: Vec<EffectParamDescriptor> = Vec::new();
    if EFFECTS[e].3 {
        params.push(
            EffectParamDescriptor {
                id: "color",
                label: "Color",
                kind: ParamKind::Color,
                default: EffectParamValue::Color(RgbColor { r: 255, g: 0, b: 0 }),
            },
        );
    }
    params.push(
        EffectParamDescriptor {
            id: "speed",
            label: "Speed",
            kind: ParamKind::Range { min: 0, max: 100_000, step: 1000 },
            default: EffectParamValue::Number(50_000),
        },
    );
    if EFFECTS[e].4 {
        let options: Vec<&'static str> = vec!["left", "right"];
        proof {
            assert(options@ =~= seq!["left", "right"]);
        }
        params.push(
            EffectParamDescriptor {
                id: "direction",
                label: "Direction",
                kind: ParamKind::Enum { options },
                default: EffectParamValue::Text(owned("left")),
            },
        );
    }
    params
}

/// The lighting of one card.
#[derive(Debug)]
pub struct ZotacSpectraGpu {
    pub proto: ZotacBlackwellProtocol,
    pub id: String,
    /// What the device was asked to show last.
    pub rgb: Option<RgbState>,
}

impl ZotacSpectraGpu {
    /// Whether an SMBus address is the controller's.
    pub fn matches_smbus(on_gpu_bus: bool, addr: u8) -> (r: bool)
        ensures
            r == (on_gpu_bus && addr == ZOTAC_ADDR),
    {
        on_gpu_bus && addr == ZOTAC_ADDR
    }

    /// The card behind an address of a bus, named after both.
    pub fn new(bus: u8, addr: u8) -> (r: Self)
        ensures
            r.proto.bus == bus,
            r.proto.address == addr,
            r.id@ == "zotac-spectra-gpu-bus"@ + decimal(bus as nat) + "-addr"@ + hex(
                addr as nat,
                2,
            ),
            r.rgb is None,
    {
        let mut id: String = owned("zotac-spectra-gpu-bus");
        push_decimal(&mut id, bus as u64);
        id.append("-addr");
        push_hex(&mut id, addr as u64, 2);
        ZotacSpectraGpu { proto: ZotacBlackwellProtocol::new(bus, addr), id, rgb: None }
    }

    /// Remembers the state that the device shows now.
    pub fn state_applied(&mut self, state: RgbState)
        ensures
            *final(self) == (ZotacSpectraGpu { rgb: Some(state), ..*old(self) }),
    {
        self.rgb = Some(state);
    }

    /// The state that was applied last; none before the first.
    pub fn current_state(&self) -> (r: Option<&RgbState>)
        ensures
            match self.rgb {
                Some(state) => r == Some(&state),
                None => r is None,
            },
    {
        match &self.rgb {
            Some(state) => Some(state),
            None => None,
        }
    }

    /// The zones and effects.
    pub fn build_descriptor() -> (r: RgbDescriptor)
        ensures
            is_descriptor(r),
    {
        let mut zones: Vec<RgbZone> = Vec::new();
        let mut z: usize = 0;
        while z < 3
            invariant
                z <= 3,
                zones@.len() == z,
                forall|k: int|
                    #![trigger zones@[k]]
                    0 <= k < z ==> zones@[k] == (RgbZone {
                        id: ZONES@[k].0,
                        name: ZONES@[k].1,
                        topology: ZoneTopology::Linear,
                        led_count: 1,
                    }),
            decreases 3 - z,
        {
            zones.push(
                RgbZone {
                    id: ZONES[z].0,
                    name: ZONES[z].1,
                    topology: ZoneTopology::Linear,
                    led_count: 1,
                },
            );
            z = z + 1;
        }
        let mut native_effects: Vec<NativeEffect> = Vec::new();
        let mut e: usize = 0;
        while e < 12
            invariant
                e <= 12,
                native_effects@.len() == e,
                forall|k: int|
                    #![trigger native_effects@[k]]
                    0 <= k < e ==> native_effects@[k].id == EFFECTS@[k].0
                        && native_effects@[k].name == EFFECTS@[k].1 && params_of(
                        k,
                        native_effects@[k].params@,
                    ),
            decreases 12 - e,
        {
            native_effects.push(
                NativeEffect { id: EFFECTS[e].0, name: EFFECTS[e].1, params: effect_params(e) },
            );
            e = e + 1;
        }
        proof {
            assert(zones@ =~= Seq::new(
                ZONES@.len(),
                |z: int|
                    RgbZone {
                        id: ZONES@[z].0,
                        name: ZONES@[z].1,
                        topology: ZoneTopology::Linear,
                        led_count: 1,
                    },
            ));
        }
        RgbDescriptor { zones, native_effects }
    }

    /// The descriptor: empty until a controller has been found.
    pub fn descriptor(detected: bool) -> (r: RgbDescriptor)
        ensures
            !detected ==> r.zones@.len() == 0 && r.native_effects@.len() == 0,
            detected ==> is_descriptor(r),
    {
        if detected {
            Self::build_descriptor()
        } else {
            RgbDescriptor { zones: Vec::new(), native_effects: Vec::new() }
        }
    }

    /// The register writes that a state asks for.
    pub fn apply_state(&self, state: &RgbState) -> (r: Result<Vec<RegWrite>, SpectraError>)
        ensures
            match r {
                Ok(writes) => match state_frames(*state) {
                    Some(frames) => writes@ == zone_writes(frames),
                    None => false,
                },
                Err(e) => state_frames(*state) is None && e == SpectraError::UnknownEffect,
            },
    {
        let mut frames: Vec<ZoneFrame> = Vec::new();
        match state {
            RgbState::Static { color } => {
                let mut z: usize = 0;
                while z < 3
                    invariant
                        z <= 3,
                        frames@ =~= Seq::new(z as nat, |k: int| steady(ZONES@[k].2, *color)),
                    decreases 3 - z,
                {
                    frames.push(steady_frame(ZONES[z].2, *color));
                    z = z + 1;
                }
            },
            RgbState::PerLed { zones } => {
                let mut z: usize = 0;
                while z < 3
                    invariant
                        z <= 3,
                        frames@ =~= Seq::new(
                            z as nat,
                            |k: int| steady(ZONES@[k].2, zone_color(zones@, k)),
                        ),
                    decreases 3 - z,
                {
                    let color = match find_zone(zones.as_slice(), ZONES[z].0) {
                        Some(leds) => {
                            let frame: Vec<RgbColor> = per_led_frame(leds.as_slice(), 1);
                            frame[0]
                        },
                        None => no_light(),
                    };
                    frames.push(steady_frame(ZONES[z].2, color));
                    z = z + 1;
                }
            },
            RgbState::NativeEffect { id, params } => {
                let e: usize = match effect_by_id(id.as_str()) {
                    Some(e) => e,
                    None => {
                        return Err(SpectraError::UnknownEffect);
                    },
                };
                let color1 = effect_color(params.as_slice());
                let speed: u8 = effect_speed(params.as_slice());
                let direction = effect_direction(params.as_slice());
                let mode = EFFECTS[e].2;
                let mut z: usize = 0;
                while z < 3
                    invariant
                        z <= 3,
                        frames@ =~= Seq::new(
                            z as nat,
                            |k: int|
                                ZoneFrame {
                                    zone: ZONES@[k].2,
                                    mode,
                                    color1,
                                    color2: black(),
                                    brightness: FULL_BRIGHTNESS,
                                    speed,
                                    direction,
                                },
                        ),
                    decreases 3 - z,
                {
                    frames.push(
                        ZoneFrame {
                            zone: ZONES[z].2,
                            mode,
                            color1,
                            color2: no_light(),
                            brightness: FULL_BRIGHTNESS,
                            speed,
                            direction,
                        },
                    );
                    z = z + 1;
                }
            },
            _ => {},
        }
        proof {
            assert(frames@ =~= state_frames(*state)->Some_0);
        }
        Ok(self.proto.apply_zones(frames.as_slice()))
    }

    /// The register writes that show the first colour of a frame in a zone.
    pub fn write_frame(&self, zone_id: &str, colors: &[RgbColor]) -> (r: Result<
        Vec<RegWrite>,
        SpectraError,
    >)
        ensures
            match (r, zone_from(zone_id@, 0)) {
                (Ok(writes), Some(z)) => writes@ == zone_writes(
                    seq![
                        steady(
                            ZONES@[z].2,
                            if colors@.len() > 0 {
                                colors@[0]
                            } else {
                                black()
                            },
                        ),
                    ],
                ),
                (Err(e), None) => e == SpectraError::UnknownZone,
                _ => false,
            },
    {
        let color = if colors.len() > 0 {
            colors[0]
        } else {
            no_light()
        };
        let mut z: usize = 0;
        while z < 3
            invariant
                z <= 3,
                zone_from(zone_id@, 0) == zone_from(zone_id@, z as int),
                color == (if colors@.len() > 0 {
                    colors@[0]
                } else {
                    black()
                }),
            decreases 3 - z,
        {
            if same_text(ZONES[z].0, zone_id) {
                let frames: [ZoneFrame; 1] = [steady_frame(ZONES[z].2, color)];
                proof {
                    assert(frames@ =~= seq![steady(ZONES@[z as int].2, color)]);
                }
                return Ok(self.proto.apply_zones(&frames));
            }
            z = z + 1;
        }
        Err(SpectraError::UnknownZone)
    }

    /// Bus, address and protocol.
    pub fn debug_info_extra(&self) -> (r: Vec<(&'static str, String)>)
        ensures
            r@.len() == 3,
            r@[0].0 == "bus" && r@[0].1@ == decimal(self.proto.bus as nat),
            r@[1].0 == "address" && r@[1].1@ == "0x"@ + hex(self.proto.address as nat, 2),
            r@[2].0 == "protocol" && r@[2].1@ == "Zotac SPECTRA Blackwell"@,
    {
        let mut address: String = owned("0x");
        push_hex(&mut address, self.proto.addr() as u64, 2);
        vec![
            ("bus", decimal_string(self.proto.bus_number() as u64)),
            ("address", address),
            ("protocol", owned("Zotac SPECTRA Blackwell")),
        ]
    }

    /// The name shown for the card.
    pub fn name(&self) -> (r: &'static str)
        ensures
            r == "Zotac SPECTRA GPU RGB",
    {
        "Zotac SPECTRA GPU RGB"
    }

    /// Who makes it.
    pub fn vendor(&self) -> (r: &'static str)
        ensures
            r == "Zotac",
    {
        "Zotac"
    }

    /// The model.
    pub fn model(&self) -> (r: &'static str)
        ensures
            r == "Blackwell SPECTRA 2.0",
    {
        "Blackwell SPECTRA 2.0"
    }

    /// What kind of device this is.
    pub fn wire_device_type(&self) -> (r: DeviceType)
        ensures
            r == DeviceType::Gpu,
    {
        DeviceType::Gpu
    }
}

/// A zone in one steady colour.
fn steady_frame(zone: u8, color: RgbColor) -> (r: ZoneFrame)
    ensures
        r == steady(zone, color),
{
    ZoneFrame {
        zone,
        mode: Mode::Static,
        color1: color,
        color2: no_light(),
        brightness: FULL_BRIGHTNESS,
        speed: 0,
        direction: Direction::Left,
    }
}

/// Whatever a state asks for, every zone gets exactly one frame or none does; all frames
/// are at full brightness and no speed is over 100 percent.
pub proof fn frames_cover_every_zone(state: RgbState)
    requires
        state_frames(state) is Some,
    ensures
        ({
            let frames = state_frames(state)->Some_0;
            &&& frames.len() == 0 || frames.len() == ZONES@.len()
            &&& frames.len() == 0 <==> (state is Engine || state is DirectEffect)
            &&& forall|z: int|
                #![trigger frames[z]]
                0 <= z < frames.len() ==> frames[z].zone == z && frames[z].brightness == 100
                    && frames[z].speed <= 100
        }),
{
}

/// A speed is the nearest whole percent, halves up, and no less than 0 nor more than 100;
/// without a number it is 50.
pub proof fn speeds_are_rounded(params: &[EffectParam], p: Option<&EffectParamValue>, r: u8)
    requires
        call_ensures(find_param, (params, "speed"), p),
        call_ensures(effect_speed, (params,), r),
    ensures
        r <= 100,
        p matches Some(EffectParamValue::Number(n)) ==> {
            &&& *n < 0 ==> r == 0
            &&& 0 <= *n < 100_000 ==> 1000 * r - 500 <= *n < 1000 * r + 500
            &&& *n >= 100_000 ==> r == 100
        },
        !(p matches Some(EffectParamValue::Number(_))) ==> r == 50,
{
}

/// Only the text `right` asks for the right; everything else goes left.
pub proof fn only_right_goes_right(
    params: &[EffectParam],
    p: Option<&EffectParamValue>,
    r: Direction,
)
    requires
        call_ensures(find_param, (params, "direction"), p),
        call_ensures(effect_direction, (params,), r),
    ensures
        r == Direction::Right <==> (p matches Some(EffectParamValue::Text(t)) && t@ == "right"@),
{
}

/// What the writes for one zone hold: the registers of a frame at full brightness, with
/// no second colour, and the commit.
pub open spec fn zone_shows(
    writes: Seq<RegWrite>,
    z: int,
    zone: u8,
    mode: u8,
    c: RgbColor,
    speed: u8,
    direction: u8,
) -> bool {
    let at = 17 * z;
    &&& forall|k: int|
        0 <= k < 16 ==> (#[trigger] writes[at + k]).register == 0x20 + k && writes[at
            + k].pause_us == 3000
    &&& writes[at].value == 0 && writes[at + 1].value == zone && writes[at + 2].value == mode
    &&& writes[at + 3].value == c.r && writes[at + 4].value == c.g && writes[at + 5].value == c.b
    &&& writes[at + 6].value == 0 && writes[at + 7].value == 0 && writes[at + 8].value == 0
    &&& writes[at + 9].value == 100 && writes[at + 10].value == speed && writes[at + 11].value
        == direction
    &&& writes[at + 12].value == 0 && writes[at + 13].value == 0
    &&& writes[at + 14].value == 0 && writes[at + 15].value == 0
    &&& writes[at + 16] == (RegWrite { register: 0x17, value: 1, pause_us: 10000 })
}

/// What the writes of frame `z` hold.
proof fn lemma_zone_shows(frames: Seq<ZoneFrame>, z: int)
    requires
        0 <= z < frames.len(),
        frames[z].color2 == black(),
        frames[z].brightness == 100,
    ensures
        zone_writes(frames).len() == 17 * frames.len(),
        zone_shows(
            zone_writes(frames),
            z,
            frames[z].zone,
            mode_code(frames[z].mode),
            frames[z].color1,
            frames[z].speed,
            direction_code(frames[z].direction),
        ),
{
    every_block_is_committed(frames, z);
    let w = zone_writes(frames);
    let at = 17 * z;
    let regs = frame_regs(frames[z]);
    assert(w[at + 0].value == regs[0] && w[at + 1].value == regs[1] && w[at + 2].value == regs[2]);
    assert(w[at + 3].value == regs[3] && w[at + 4].value == regs[4] && w[at + 5].value == regs[5]);
    assert(w[at + 6].value == regs[6] && w[at + 7].value == regs[7] && w[at + 8].value == regs[8]);
    assert(w[at + 9].value == regs[9] && w[at + 10].value == regs[10]);
    assert(w[at + 11].value == regs[11] && w[at + 12].value == regs[12]);
    assert(w[at + 13].value == regs[13] && w[at + 14].value == regs[14]);
    assert(w[at + 15].value == regs[15]);
}

/// One colour for all is shown steadily in all three zones.
pub proof fn one_color_fills_every_zone(
    d: ZotacSpectraGpu,
    color: RgbColor,
    r: Result<Vec<RegWrite>, SpectraError>,
    z: int,
)
    requires
        call_ensures(ZotacSpectraGpu::apply_state, (&d, &RgbState::Static { color }), r),
        0 <= z < 3,
    ensures
        r is Ok && r->Ok_0@.len() == 51,
        zone_shows(r->Ok_0@, z, z as u8, 1, color, 0, 0),
{
    let t = ZONES;
    assert(t@[0].2 == 0 && t@[1].2 == 1 && t@[2].2 == 2);
    let frames = state_frames(RgbState::Static { color })->Some_0;
    lemma_zone_shows(frames, z);
}

/// The zones by their ids: 0 is the logo, 1 the side bar and 2 the infinity mirror.
pub open spec fn zone_name(z: int) -> Seq<char> {
    if z == 0 {
        "logo"@
    } else if z == 1 {
        "side_bar"@
    } else {
        "infinity_mirror"@
    }
}

/// Of colours by LED, a zone shows the one for its LED 0, steadily, and stays dark where
/// it has none.
pub proof fn zones_show_their_own_color(
    d: ZotacSpectraGpu,
    state: RgbState,
    r: Result<Vec<RegWrite>, SpectraError>,
    z: int,
    name: &str,
    zones: &[ZoneLeds],
    zone: Option<&Vec<(u32, RgbColor)>>,
    leds: &[(u32, RgbColor)],
    frame: Vec<RgbColor>,
)
    requires
        call_ensures(ZotacSpectraGpu::apply_state, (&d, &state), r),
        state matches RgbState::PerLed { zones: v } && v@ == zones@,
        0 <= z < 3,
        name@ == zone_name(z),
        call_ensures(find_zone, (zones, name), zone),
        zone matches Some(v) ==> v@ == leds@,
        call_ensures(per_led_frame, (leds, 1usize), frame),
    ensures
        r is Ok && r->Ok_0@.len() == 51,
        zone is Some ==> zone_shows(r->Ok_0@, z, z as u8, 1, frame@[0], 0, 0),
        zone is None ==> zone_shows(
            r->Ok_0@,
            z,
            z as u8,
            1,
            RgbColor { r: 0, g: 0, b: 0 },
            0,
            0,
        ),
{
    let t = ZONES;
    assert(t@[0].2 == 0 && t@[1].2 == 1 && t@[2].2 == 2);
    assert(t@[0].0@ == "logo"@ && t@[1].0@ == "side_bar"@ && t@[2].0@ == "infinity_mirror"@);
    let frames = state_frames(state)->Some_0;
    lemma_zone_shows(frames, z);
}

/// The register value of the mode that an effect id stands for.
pub open spec fn effect_value(id: Seq<char>) -> u8 {
    if id == "breathe"@ {
        2
    } else if id == "fade"@ {
        3
    } else if id == "wink"@ {
        4
    } else if id == "glide"@ {
        8
    } else if id == "prism"@ {
        9
    } else if id == "bokeh"@ {
        10
    } else if id == "beacon"@ {
        11
    } else if id == "tandem"@ {
        24
    } else if id == "tidal"@ {
        25
    } else if id == "astra"@ {
        32
    } else if id == "cosmic"@ {
        33
    } else if id == "volta"@ {
        34
    } else {
        0
    }
}

/// Which effect an id stands for.
proof fn lemma_effect_value(id: Seq<char>)
    ensures
        effect_from(id, 0) is None <==> effect_value(id) == 0,
        effect_from(id, 0) matches Some(e) ==> 0 <= e < 12 && mode_code(EFFECTS@[e].2)
            == effect_value(id),
{
    let t = EFFECTS;
    assert(t@.len() == 12);
    assert(t@[0].0@ == "breathe"@ && t@[1].0@ == "fade"@ && t@[2].0@ == "wink"@);
    assert(t@[3].0@ == "glide"@ && t@[4].0@ == "prism"@ && t@[5].0@ == "bokeh"@);
    assert(t@[6].0@ == "beacon"@ && t@[7].0@ == "tandem"@ && t@[8].0@ == "tidal"@);
    assert(t@[9].0@ == "astra"@ && t@[10].0@ == "cosmic"@ && t@[11].0@ == "volta"@);
    assert(t@[0].2 == Mode::Breathe && t@[1].2 == Mode::Fade && t@[2].2 == Mode::Wink);
    assert(t@[3].2 == Mode::Glide && t@[4].2 == Mode::Prism && t@[5].2 == Mode::Bokeh);
    assert(t@[6].2 == Mode::Beacon && t@[7].2 == Mode::Tandem && t@[8].2 == Mode::Tidal);
    assert(t@[9].2 == Mode::Astra && t@[10].2 == Mode::Cosmic && t@[11].2 == Mode::Volta);
    reveal_with_fuel(effect_from, 13);
}

/// An effect runs in all three zones with its own mode, the colour, the speed and the
/// direction that were asked for, red where no colour was. An id that stands for no
/// effect is refused.
pub proof fn effects_run_in_every_zone(
    d: ZotacSpectraGpu,
    state: RgbState,
    r: Result<Vec<RegWrite>, SpectraError>,
    z: int,
    params: &[EffectParam],
    color: Option<&EffectParamValue>,
    speed: u8,
    direction: Direction,
)
    requires
        call_ensures(ZotacSpectraGpu::apply_state, (&d, &state), r),
        state matches RgbState::NativeEffect { id, params: v } && v@ == params@,
        call_ensures(find_param, (params, "color"), color),
        call_ensures(effect_speed, (params,), speed),
        call_ensures(effect_direction, (params,), direction),
        0 <= z < 3,
    ensures
        state matches RgbState::NativeEffect { id, .. } && {
            &&& r is Err <==> effect_value(id@) == 0
            &&& r is Ok ==> r->Ok_0@.len() == 51 && zone_shows(
                r->Ok_0@,
                z,
                z as u8,
                effect_value(id@),
                match color {
                    Some(EffectParamValue::Color(c)) => *c,
                    _ => RgbColor { r: 255, g: 0, b: 0 },
                },
                speed,
                if direction == Direction::Right {
                    1
                } else {
                    0
                },
            )
        },
{
    let t = ZONES;
    assert(t@[0].2 == 0 && t@[1].2 == 1 && t@[2].2 == 2);
    if let RgbState::NativeEffect { id, params: v } = state {
        lemma_effect_value(id@);
    }
    if let Some(frames) = state_frames(state) {
        lemma_zone_shows(frames, z);
    }
}

/// States of the engine write nothing.
pub proof fn engines_write_nothing(
    d: ZotacSpectraGpu,
    state: RgbState,
    r: Result<Vec<RegWrite>, SpectraError>,
)
    requires
        call_ensures(ZotacSpectraGpu::apply_state, (&d, &state), r),
        !(state is Static) && !(state is PerLed) && !(state is NativeEffect),
    ensures
        r is Ok && r->Ok_0@.len() == 0,
{
    assert(zone_writes(Seq::empty()).len() == 0);
}

/// A frame shows its first colour, or black, in the zone it is for and writes nothing
/// else; other zones are refused.
pub proof fn frames_show_their_first_color(
    d: ZotacSpectraGpu,
    zone_id: &str,
    colors: &[RgbColor],
    r: Result<Vec<RegWrite>, SpectraError>,
    z: int,
)
    requires
        call_ensures(ZotacSpectraGpu::write_frame, (&d, zone_id, colors), r),
        0 <= z < 3,
    ensures
        zone_id@ == zone_name(z) ==> r is Ok && r->Ok_0@.len() == 17 && zone_shows(
            r->Ok_0@,
            0,
            z as u8,
            1,
            if colors@.len() > 0 {
                colors@[0]
            } else {
                RgbColor { r: 0, g: 0, b: 0 }
            },
            0,
            0,
        ),
        r is Err ==> zone_id@ != zone_name(z),
        zone_id@ != zone_name(0) && zone_id@ != zone_name(1) && zone_id@ != zone_name(2) ==> r
            == Err::<Vec<RegWrite>, SpectraError>(SpectraError::UnknownZone),
{
    let t = ZONES;
    assert(t@.len() == 3);
    assert(t@[0].2 == 0 && t@[1].2 == 1 && t@[2].2 == 2);
    assert(t@[0].0@ == "logo"@ && t@[1].0@ == "side_bar"@ && t@[2].0@ == "infinity_mirror"@);
    reveal_strlit("logo");
    reveal_strlit("side_bar");
    reveal_strlit("infinity_mirror");
    assert("logo"@.len() == 4 && "side_bar"@.len() == 8 && "infinity_mirror"@.len() == 15);
    reveal_with_fuel(zone_from, 4);
    if let Some(at) = zone_from(zone_id@, 0) {
        let c = if colors@.len() > 0 {
            colors@[0]
        } else {
            black()
        };
        lemma_zone_shows(seq![steady(ZONES@[at].2, c)], 0);
    }
}

/// The effect at a position of the list is the one that its id stands for.
pub proof fn listed_effects_are_found(r: RgbDescriptor, e: int, at: Option<usize>, id: &str)
    requires
        call_ensures(ZotacSpectraGpu::build_descriptor, (), r),
        0 <= e < 12,
        id@ == r.native_effects@[e].id@,
        call_ensures(effect_by_id, (id,), at),
    ensures
        r.native_effects@.len() == 12,
        at is Some,
        r.native_effects@[at->Some_0 as int].id@ == id@,
        effect_value(id@) != 0,
{
    assert(r.native_effects@[e].id == EFFECTS@[e].0);
    lemma_found(id@, e, 0);
    lemma_effect_value(id@);
    assert(r.native_effects@[at->Some_0 as int].id == EFFECTS@[at->Some_0 as int].0);
}

/// An id in the table is found.
proof fn lemma_found(id: Seq<char>, e: int, from: int)
    requires
        0 <= from <= e < EFFECTS@.len(),
        EFFECTS@[e].0@ == id,
    ensures
        effect_from(id, from) matches Some(f) && from <= f <= e && EFFECTS@[f].0@ == id,
    decreases e - from,
{
    if EFFECTS@[from].0@ != id {
        lemma_found(id, e, from + 1);
    }
}

/// Every effect but fade and prism takes a colour, every one a speed, and glide, prism
/// and tidal a direction. Each parameter has its range and its default.
pub proof fn effects_have_their_parameters(r: RgbDescriptor, e: int)
    requires
        call_ensures(ZotacSpectraGpu::build_descriptor, (), r),
        0 <= e < 12,
    ensures
        ({
            let f = r.native_effects@[e];
            let color: int = if f.id@ == "fade"@ || f.id@ == "prism"@ {
                0
            } else {
                1
            };
            let turns = f.id@ == "glide"@ || f.id@ == "prism"@ || f.id@ == "tidal"@;
            &&& f.params@.len() == color + 1 + if turns {
                1int
            } else {
                0
            }
            &&& color == 1 ==> f.params@[0].id == "color" && f.params@[0].kind is Color
                && f.params@[0].default == EffectParamValue::Color(RgbColor { r: 255, g: 0, b: 0 })
            &&& f.params@[color].id == "speed" && f.params@[color].kind == (ParamKind::Range {
                min: 0,
                max: 100_000,
                step: 1000,
            }) && f.params@[color].default == EffectParamValue::Number(50_000)
            &&& turns ==> f.params@[color + 1].id == "direction"
                && (f.params@[color + 1].kind matches ParamKind::Enum { options } && options@
                == seq!["left", "right"])
                && (f.params@[color + 1].default matches EffectParamValue::Text(t) && t@
                == "left"@)
        }),
{
    let t = EFFECTS;
    assert(t@.len() == 12);
    assert(t@[0].0@ == "breathe"@ && t@[1].0@ == "fade"@ && t@[2].0@ == "wink"@);
    assert(t@[3].0@ == "glide"@ && t@[4].0@ == "prism"@ && t@[5].0@ == "bokeh"@);
    assert(t@[6].0@ == "beacon"@ && t@[7].0@ == "tandem"@ && t@[8].0@ == "tidal"@);
    assert(t@[9].0@ == "astra"@ && t@[10].0@ == "cosmic"@ && t@[11].0@ == "volta"@);
    assert(t@[0].3 && !t@[1].3 && t@[2].3 && t@[3].3 && !t@[4].3 && t@[5].3);
    assert(t@[6].3 && t@[7].3 && t@[8].3 && t@[9].3 && t@[10].3 && t@[11].3);
    assert(!t@[0].4 && !t@[1].4 && !t@[2].4 && t@[3].4 && t@[4].4 && !t@[5].4);
    assert(!t@[6].4 && !t@[7].4 && t@[8].4 && !t@[9].4 && !t@[10].4 && !t@[11].4);
    reveal_strlit("breathe");
    reveal_strlit("fade");
    reveal_strlit("wink");
    reveal_strlit("glide");
    reveal_strlit("prism");
    reveal_strlit("bokeh");
    reveal_strlit("beacon");
    reveal_strlit("tandem");
    reveal_strlit("tidal");
    reveal_strlit("astra");
    reveal_strlit("cosmic");
    reveal_strlit("volta");
    assert("fade"@.len() == 4 && "wink"@.len() == 4 && "breathe"@.len() == 7);
    assert("beacon"@.len() == 6 && "tandem"@.len() == 6 && "cosmic"@.len() == 6);
    assert("fade"@[0] == 'f' && "wink"@[0] == 'w' && "glide"@[0] == 'g' && "prism"@[0] == 'p');
    assert("tidal"@[0] == 't' && "bokeh"@[0] == 'b' && "astra"@[0] == 'a' && "volta"@[0] == 'v');
    assert("glide"@.len() == 5 && "prism"@.len() == 5 && "tidal"@.len() == 5);
    assert(r.native_effects@[e].id == EFFECTS@[e].0);
    assert(params_of(e, r.native_effects@[e].params@));
}

/// The zones are the logo, the side bar and the infinity mirror, with one LED each; they
/// are shown once a controller has been found, and the effects with them.
pub proof fn zones_are_listed_once_found(
    detected: bool,
    r: RgbDescriptor,
    z: int,
)
    requires
        call_ensures(ZotacSpectraGpu::descriptor, (detected,), r),
        0 <= z < 3,
    ensures
        !detected ==> r.zones@.len() == 0 && r.native_effects@.len() == 0,
        detected ==> {
            &&& r.zones@.len() == 3 && r.native_effects@.len() == 12
            &&& r.zones@[z].id@ == zone_name(z)
            &&& r.zones@[z].led_count == 1 && r.zones@[z].topology == ZoneTopology::Linear
            &&& r.zones@[0].name == "Logo"
            &&& r.zones@[1].name == "Side Bar"
            &&& r.zones@[2].name == "Infinity Mirror"
        },
{
    let t = ZONES;
    assert(t@[0].0@ == "logo"@ && t@[1].0@ == "side_bar"@ && t@[2].0@ == "infinity_mirror"@);
    assert(EFFECTS@.len() == 12 && t@.len() == 3);
}

/// The controller is at address `4B` of a bus of a card, and nowhere else.
pub proof fn controllers_have_one_address(on_gpu_bus: bool, addr: u8, r: bool)
    requires
        call_ensures(ZotacSpectraGpu::matches_smbus, (on_gpu_bus, addr), r),
    ensures
        r <==> on_gpu_bus && addr == 0x4B,
{
}

/// A card is named after its bus and its address, and tells both.
pub proof fn cards_are_named_after_their_place(
    bus: u8,
    addr: u8,
    d: ZotacSpectraGpu,
    info: Vec<(&'static str, String)>,
)
    requires
        call_ensures(ZotacSpectraGpu::new, (bus, addr), d),
        call_ensures(ZotacSpectraGpu::debug_info_extra, (&d,), info),
    ensures
        d.id@ == "zotac-spectra-gpu-bus"@ + decimal(bus as nat) + "-addr"@ + hex(addr as nat, 2),
        d.rgb is None,
        info@.len() == 3,
        info@[0].0 == "bus" && info@[0].1@ == decimal(bus as nat),
        info@[1].0 == "address" && info@[1].1@ == "0x"@ + hex(addr as nat, 2),
        info@[2].0 == "protocol" && info@[2].1@ == "Zotac SPECTRA Blackwell"@,
{
}

/// The state that was applied last is the one that is told.
pub proof fn applied_states_are_told(
    d: &mut ZotacSpectraGpu,
    state: RgbState,
    r: Option<&RgbState>,
)
    requires
        call_ensures(ZotacSpectraGpu::state_applied, (d, state), ()),
        call_ensures(ZotacSpectraGpu::current_state, (&*final(d),), r),
    ensures
        r == Some(&state),
        final(d).proto == old(d).proto && final(d).id == old(d).id,
{
}

/// A card is shown under its own names.
pub proof fn cards_have_their_names(
    d: ZotacSpectraGpu,
    name: &'static str,
    vendor: &'static str,
    model: &'static str,
    kind: DeviceType,
)
    requires
        call_ensures(ZotacSpectraGpu::name, (&d,), name),
        call_ensures(ZotacSpectraGpu::vendor, (&d,), vendor),
        call_ensures(ZotacSpectraGpu::model, (&d,), model),
        call_ensures(ZotacSpectraGpu::wire_device_type, (&d,), kind),
    ensures
        name == "Zotac SPECTRA GPU RGB" && vendor == "Zotac" && model == "Blackwell SPECTRA 2.0",
        kind == DeviceType::Gpu,
{
}

} // verus!
