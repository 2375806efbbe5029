//! Philips Evnia 49M2C8900, rear Ambiglow LEDs: when the host holds the strip, what it
//! writes to the LED controller, and how the strip is laid out.

use crate::philips::protocols::philips_evnia::{
    is_register_write, ControlTransfer, DdcError, PhilipsAmbiglowProtocol,
};
use crate::rgb::{
    find_zone, led_frame, per_led_frame, solid_frame, zone_named, NativeEffect, RgbColor,
    RgbDescriptor, RgbState, RgbZone, ZoneLeds, ZoneTopology,
};
use crate::text::{hex, owned, push_hex, same_text};
use crate::types::DeviceType;
use vstd::prelude::*;
use vstd::slice::*;

verus! {

/// USB vendor id of the LED controller.
pub const VID: u16 = 0x0CF2;

/// USB product id of the LED controller.
pub const PID: u16 = 0xB201;

/// Number of addressable LEDs on the rear strip.
pub const LED_COUNT: usize = 44;

/// Length of the frame buffer in bytes.
pub const FRAME_LEN: usize = 132;

/// The only zone.
pub const ZONE_ID: &'static str = "ambiglow";

/// The effect that hands the LEDs back to the monitor.
pub const MONITOR_EFFECT: &'static str = "monitor";

/// Minimum gap in milliseconds between the last frame and a release; the controller
/// mis-applies a release while a frame is still settling.
pub const FRAME_SETTLE_MS: u64 = 10;

/// Address of the frame buffer.
pub const FRAME_ADDR: u16 = 0xE100;

/// Control regions that arm direct frame control.
pub const CONTROL_BLOCKS: [u16; 2] = [0xE020, 0xE030];

/// Where the baseline region goes.
pub const BASELINE_ADDR: u16 = 0xE020;

/// Hands direct frame control to the host.
pub const CAPTURE_BLOCK: [u8; 16] = [
    0x01, 0x00, 0x02, 0x04, 0x00, 0x05, 0x00, 0x00, 0x00, 0x02, 0xFF, 0x00, 0x00, 0x00, 0x00, 0x01,
];

/// Returns control to the monitor's own firmware.
pub const BASELINE_REGION: [u8; 64] = [
    0x00, 0x01, 0x02, 0x00, 0x00, 0x05, 0x00, 0x00, 0x00, 0x02, 0xFF, 0x00, 0x00, 0x00, 0x00, 0x00,
    0x00, 0x00, 0x02, 0x00, 0x00, 0x05, 0x00, 0x00, 0x00, 0x02, 0xFF, 0x00, 0x00, 0x00, 0x00, 0x00,
    0x00, 0x00, 0x00, 0x00, 0x00, 0x00, 0x00, 0x00, 0x00, 0x00, 0xFF, 0x00, 0x00, 0x00, 0x00, 0x00,
    0x00, 0x00, 0x00, 0x00, 0x00, 0x00, 0x00, 0x00, 0x00, 0x00, 0x00, 0x00, 0x00, 0x00, 0x00, 0x00,
];

/// Positions are held in this many parts of the strip's width and height.
pub const LAYOUT_UNITS: u32 = 2100;

/// Where an LED sits, seen from the front: `x` from left to right, `y` from top to
/// bottom, in `LAYOUT_UNITS`.
#[derive(Debug, Clone, Copy, PartialEq, Eq, Structural)]
pub struct LedPosition {
    pub id: u32,
    pub x: u32,
    pub y: u32,
}

/// Where LED `i` sits: up the right edge, leftwards along the top in two halves, down
/// the left edge, then the two centre columns above and below the mount.
pub open spec fn led_position(i: int) -> LedPosition {
    let (x, y) = if i < 4 {
        (2058, 2100 - 700 * i)
    } else if i < 12 {
        (1890 - 114 * (i - 4), 0)
    } else if i < 20 {
        (1008 - 114 * (i - 12), 0)
    } else if i < 24 {
        (42, 700 * (i - 20))
    } else if i < 35 {
        (1050, 105 + 84 * (i - 24))
    } else {
        (1050, 1155 + 105 * (i - 35))
    };
    LedPosition { id: i as u32, x: x as u32, y: y as u32 }
}

/// The layout of the strip, in LED order.
pub fn ambiglow_positions() -> (r: Vec<LedPosition>)
    ensures
        r@ == Seq::new(LED_COUNT as nat, |i: int| led_position(i)),
{
    let mut out: Vec<LedPosition> = Vec::new();
    let mut i: u32 = 0;
    while i < 44
        invariant
            i <= 44,
            out@ == Seq::new(i as nat, |k: int| led_position(k)),
        decreases 44 - i,
    {
        let (x, y): (u32, u32) = if i < 4 {
            (2058, 2100 - 700 * i)
        } else if i < 12 {
            (1890 - 114 * (i - 4), 0)
        } else if i < 20 {
            (1008 - 114 * (i - 12), 0)
        } else if i < 24 {
            (42, 700 * (i - 20))
        } else if i < 35 {
            (1050, 105 + 84 * (i - 24))
        } else {
            (1050, 1155 + 105 * (i - 35))
        };
        out.push(LedPosition { id: i, x, y });
        proof {
            assert(out@ =~= Seq::new((i + 1) as nat, |k: int| led_position(k)));
        }
        i = i + 1;
    }
    out
}

/// The strip as one grid zone, and the effect that releases it.
pub fn build_descriptor() -> (r: RgbDescriptor)
    ensures
        r.zones@ == seq![
            RgbZone {
                id: ZONE_ID,
                name: "Ambiglow",
                topology: ZoneTopology::Grid,
                led_count: LED_COUNT as u32,
            },
        ],
        r.native_effects@.len() == 1,
        r.native_effects@[0].id == MONITOR_EFFECT,
        r.native_effects@[0].name == "Monitor (firmware control)",
        r.native_effects@[0].params@.len() == 0,
{
    RgbDescriptor {
        zones: vec![
            RgbZone {
                id: ZONE_ID,
                name: "Ambiglow",
                topology: ZoneTopology::Grid,
                led_count: 44,
            },
        ],
        native_effects: vec![
            NativeEffect {
                id: MONITOR_EFFECT,
                name: "Monitor (firmware control)",
                params: Vec::new(),
            },
        ],
    }
}

/// Whether a state asks to return the strip to the monitor.
pub open spec fn asks_release(state: RgbState) -> bool {
    state matches RgbState::NativeEffect { id, .. } && id@ == MONITOR_EFFECT@
}

/// Whether a state asks to return the strip to the monitor.
pub fn is_monitor_release(state: &RgbState) -> (r: bool)
    ensures
        r == asks_release(*state),
{
    match state {
        RgbState::NativeEffect { id, .. } => same_text(id.as_str(), MONITOR_EFFECT),
        _ => false,
    }
}

/// Channel `k` of a colour: red, green, blue.
pub open spec fn channel(c: RgbColor, k: int) -> u8 {
    if k == 0 {
        c.r
    } else if k == 1 {
        c.g
    } else {
        c.b
    }
}

/// The frame buffer for a colour list: RGB triples, black past the end of the list.
pub open spec fn frame_bytes(colors: Seq<RgbColor>) -> Seq<u8> {
    Seq::new(
        FRAME_LEN as nat,
        |i: int|
            if i / 3 < colors.len() {
                channel(colors[i / 3], i % 3)
            } else {
                0
            },
    )
}

/// Packs a colour list into the frame buffer. Extra colours are dropped; a short list
/// leaves the tail black.
pub fn build_frame(colors: &[RgbColor]) -> (r: [u8; 132])
    ensures
        r@ == frame_bytes(colors@),
{
    let mut buf: [u8; 132] = [0u8; 132];
    let mut i: usize = 0;
    while i < 44 && i < colors.len()
        invariant
            i <= 44,
            i <= colors@.len(),
            buf@.len() == 132,
            forall|k: int| 0 <= k < 3 * i ==> buf@[k] == frame_bytes(colors@)[k],
            forall|k: int| 3 * i <= k < 132 ==> buf@[k] == 0,
        decreases 44 - i,
    {
        let c: RgbColor = colors[i];
        buf[3 * i] = c.r;
        buf[3 * i + 1] = c.g;
        buf[3 * i + 2] = c.b;
        i = i + 1;
    }
    proof {
        assert(buf@ =~= frame_bytes(colors@));
    }
    buf
}

/// The full frame that a state describes; effect and engine states describe none, and
/// neither does a per-LED state that leaves the zone out.
pub open spec fn state_frame(state: RgbState) -> Option<Seq<RgbColor>> {
    match state {
        RgbState::Static { color } => Some(Seq::new(LED_COUNT as nat, |i: int| color)),
        RgbState::PerLed { zones } => match zone_named(zones@, ZONE_ID@) {
            Some(leds) => Some(led_frame(leds, LED_COUNT as nat)),
            None => None,
        },
        _ => None,
    }
}

/// Turns a state into a full frame of colours.
pub fn colors_from_state(state: &RgbState) -> (r: Option<Vec<RgbColor>>)
    ensures
        match state_frame(*state) {
            Some(f) => r is Some && r->Some_0@ == f,
            None => r is None,
        },
{
    match state {
        RgbState::Static { color } => Some(solid_frame(*color, LED_COUNT)),
        RgbState::PerLed { zones } => {
            match find_zone(zones, ZONE_ID) {
                Some(leds) => Some(per_led_frame(leds, LED_COUNT)),
                None => None,
            }
        },
        _ => None,
    }
}

/// What has to be done to show a state.
#[derive(Debug)]
pub enum AmbiglowAction {
    /// Wait until the last frame has settled, then release the strip.
    Release,
    /// Write these colours.
    Write(Vec<RgbColor>),
    /// Nothing is written.
    Nothing,
}

/// The strip: whether the host holds it, and when the last frame landed.
#[derive(Debug)]
pub struct PhilipsEvniaAmbiglow {
    pub id: String,
    pub protocol: PhilipsAmbiglowProtocol,
    pub captured: bool,
    /// Monotonic milliseconds of the last frame write.
    pub last_frame_ms: Option<u64>,
    /// What the device was asked to show last.
    pub rgb: Option<RgbState>,
}

/// Whether `writes` arm direct frame control.
pub open spec fn are_capture_writes(writes: Seq<ControlTransfer>) -> bool {
    &&& writes.len() == 2
    &&& is_register_write(writes[0], CONTROL_BLOCKS@[0], CAPTURE_BLOCK@)
    &&& is_register_write(writes[1], CONTROL_BLOCKS@[1], CAPTURE_BLOCK@)
}

/// What is left of the settling time of a frame written at `last_ms`; nothing once it has
/// elapsed.
pub open spec fn settle_wait(last_ms: Option<u64>, now_ms: u64) -> Option<u64> {
    match last_ms {
        None => None,
        Some(t) => {
            let elapsed = if now_ms >= t { now_ms - t } else { 0 };
            if elapsed < FRAME_SETTLE_MS {
                Some((FRAME_SETTLE_MS - elapsed) as u64)
            } else {
                None
            }
        },
    }
}

impl PhilipsEvniaAmbiglow {
    /// A strip that the monitor holds.
    pub fn new() -> (r: Self)
        ensures
            r.id@ == "philips_evnia_ambiglow_"@ + hex(VID as nat, 4) + "_"@ + hex(PID as nat, 4),
            !r.protocol.connected,
            !r.captured,
            r.last_frame_ms is None,
            r.rgb is None,
    {
        let mut id = owned("philips_evnia_ambiglow_");
        push_hex(&mut id, VID as u64, 4);
        id.append("_");
        push_hex(&mut id, PID as u64, 4);
        PhilipsEvniaAmbiglow {
            id,
            protocol: PhilipsAmbiglowProtocol::new(),
            captured: false,
            last_frame_ms: None,
            rgb: None,
        }
    }

    /// The writes that arm direct frame control; none while the strip is held already,
    /// so that fast frame writes do not re-arm it.
    pub fn ensure_capture(&self) -> (r: Result<Vec<ControlTransfer>, DdcError>)
        ensures
            self.captured ==> r is Ok && r->Ok_0@.len() == 0,
            !self.captured && self.protocol.connected ==> r is Ok && are_capture_writes(
                r->Ok_0@,
            ),
            !self.captured && !self.protocol.connected ==> r == Err::<
                Vec<ControlTransfer>,
                DdcError,
            >(DdcError::NotConnected),
    {
        let mut out: Vec<ControlTransfer> = Vec::new();
        if self.captured {
            return Ok(out);
        }
        let block: [u8; 16] = CAPTURE_BLOCK;
        match self.protocol.write(CONTROL_BLOCKS[0], &block) {
            Ok(t) => out.push(t),
            Err(e) => return Err(e),
        }
        match self.protocol.write(CONTROL_BLOCKS[1], &block) {
            Ok(t) => out.push(t),
            Err(e) => return Err(e),
        }
        Ok(out)
    }

    /// The writes that show `colors`: those that arm the strip, if it is not held yet,
    /// then the frame.
    pub fn write_colors(&self, colors: &[RgbColor]) -> (r: Result<Vec<ControlTransfer>, DdcError>)
        ensures
            !self.protocol.connected ==> r == Err::<Vec<ControlTransfer>, DdcError>(
                DdcError::NotConnected,
            ),
            self.protocol.connected ==> {
                &&& r is Ok
                &&& r->Ok_0@.len() == self.write_count()
                &&& is_register_write(r->Ok_0@.last(), FRAME_ADDR, frame_bytes(colors@))
                &&& !self.captured ==> are_capture_writes(r->Ok_0@.drop_last())
            },
    {
        let mut out = match self.ensure_capture() {
            Ok(w) => w,
            Err(e) => return Err(e),
        };
        let ghost armed = out@;
        let frame = build_frame(colors);
        match self.protocol.write(FRAME_ADDR, &frame) {
            Ok(t) => out.push(t),
            Err(e) => return Err(e),
        }
        proof {
            assert(out@.drop_last() =~= armed);
        }
        Ok(out)
    }

    /// How many writes show a frame.
    pub open spec fn write_count(self) -> nat {
        if self.captured {
            1
        } else {
            3
        }
    }

    /// Takes note of how many writes of a frame succeeded before the first that failed.
    /// The strip is held once both capture writes went through; the frame counts as
    /// written only if all did.
    pub fn colors_written(&mut self, succeeded: usize, now_ms: u64)
        ensures
            final(self).captured == (old(self).captured || succeeded >= 2),
            final(self).last_frame_ms == if succeeded >= old(self).write_count() {
                Some(now_ms)
            } else {
                old(self).last_frame_ms
            },
            final(self).id == old(self).id,
            final(self).protocol == old(self).protocol,
            final(self).rgb == old(self).rgb,
    {
        let needed: usize = if self.captured {
            1
        } else {
            3
        };
        if succeeded >= 2 {
            self.captured = true;
        }
        if succeeded >= needed {
            self.last_frame_ms = Some(now_ms);
        }
    }

    /// The write that hands the strip back to the monitor.
    pub fn release(&self) -> (r: Result<ControlTransfer, DdcError>)
        ensures
            self.protocol.connected ==> r is Ok && is_register_write(
                r->Ok_0,
                BASELINE_ADDR,
                BASELINE_REGION@,
            ),
            !self.protocol.connected ==> r == Err::<ControlTransfer, DdcError>(
                DdcError::NotConnected,
            ),
    {
        let region: [u8; 64] = BASELINE_REGION;
        self.protocol.write(BASELINE_ADDR, &region)
    }

    /// Takes note of a release that went through.
    pub fn released(&mut self)
        ensures
            !final(self).captured,
            final(self).last_frame_ms == old(self).last_frame_ms,
            final(self).id == old(self).id,
            final(self).protocol == old(self).protocol,
            final(self).rgb == old(self).rgb,
    {
        self.captured = false;
    }

    /// How long to wait before a release is safe.
    pub fn settle_remaining(&self, now_ms: u64) -> (r: Option<u64>)
        ensures
            r == settle_wait(self.last_frame_ms, now_ms),
    {
        match self.last_frame_ms {
            None => None,
            Some(t) => {
                let elapsed: u64 = if now_ms >= t {
                    now_ms - t
                } else {
                    0
                };
                if elapsed < FRAME_SETTLE_MS {
                    Some(FRAME_SETTLE_MS - elapsed)
                } else {
                    None
                }
            },
        }
    }

    /// What has to be done to show a state.
    pub fn set_state(&self, state: &RgbState) -> (r: AmbiglowAction)
        ensures
            if asks_release(*state) {
                r is Release
            } else {
                match state_frame(*state) {
                    Some(f) => r matches AmbiglowAction::Write(c) && c@ == f,
                    None => r is Nothing,
                }
            },
    {
        if is_monitor_release(state) {
            AmbiglowAction::Release
        } else {
            match colors_from_state(state) {
                Some(colors) => AmbiglowAction::Write(colors),
                None => AmbiglowAction::Nothing,
            }
        }
    }

    /// Remembers the state that the device shows now.
    pub fn state_applied(&mut self, state: RgbState)
        ensures
            *final(self) == (PhilipsEvniaAmbiglow { rgb: Some(state), ..*old(self) }),
    {
        self.rgb = Some(state);
    }

    /// The state that was applied last; none before the first.
    pub fn current_state(&self) -> (r: Option<&RgbState>)
        ensures
            match self.rgb {
                Some(state) => r == Some(&state),
                None => r is None,
            },
    {
        match &self.rgb {
            Some(state) => Some(state),
            None => None,
        }
    }

    /// The writes for one frame of an effect engine; zones other than the strip are
    /// ignored.
    pub fn write_frame(&self, zone_id: &str, colors: &[RgbColor]) -> (r: Result<
        Vec<ControlTransfer>,
        DdcError,
    >)
        ensures
            zone_id@ != ZONE_ID@ ==> r is Ok && r->Ok_0@.len() == 0,
            zone_id@ == ZONE_ID@ && !self.protocol.connected ==> r == Err::<
                Vec<ControlTransfer>,
                DdcError,
            >(DdcError::NotConnected),
            zone_id@ == ZONE_ID@ && self.protocol.connected ==> {
                &&& r is Ok
                &&& r->Ok_0@.len() == self.write_count()
                &&& is_register_write(r->Ok_0@.last(), FRAME_ADDR, frame_bytes(colors@))
                &&& !self.captured ==> are_capture_writes(r->Ok_0@.drop_last())
            },
    {
        if !same_text(zone_id, ZONE_ID) {
            return Ok(Vec::new());
        }
        self.write_colors(colors)
    }

    /// Whether closing the device has to release the strip first.
    pub fn close_releases(&self) -> (r: bool)
        ensures
            r == self.captured,
    {
        self.captured
    }

    /// The name shown for the strip.
    pub fn name(&self) -> (r: &'static str)
        ensures
            r == "Philips Evnia 49 Ambiglow",
    {
        "Philips Evnia 49 Ambiglow"
    }

    /// Who makes it.
    pub fn vendor(&self) -> (r: &'static str)
        ensures
            r == "Philips",
    {
        "Philips"
    }

    /// The model.
    pub fn model(&self) -> (r: &'static str)
        ensures
            r == "49M2C8900 (Ambiglow)",
    {
        "49M2C8900 (Ambiglow)"
    }

    /// What kind of device this is.
    pub fn wire_device_type(&self) -> (r: DeviceType)
        ensures
            r == DeviceType::Monitor,
    {
        DeviceType::Monitor
    }
}

/// LED positions are in LED order and within the strip.
pub proof fn positions_are_ordered_and_in_bounds(i: int)
    requires
        0 <= i < LED_COUNT,
    ensures
        led_position(i).id == i,
        led_position(i).x <= LAYOUT_UNITS,
        led_position(i).y <= LAYOUT_UNITS,
{
}

/// A release that waits for the time it is told starts no earlier than the settling
/// time after the last frame.
pub proof fn release_waits_for_the_frame(last_ms: u64, now_ms: u64)
    requires
        last_ms <= now_ms,
    ensures
        match settle_wait(Some(last_ms), now_ms) {
            Some(d) => now_ms + d - last_ms >= FRAME_SETTLE_MS,
            None => now_ms - last_ms >= FRAME_SETTLE_MS,
        },
{
}

/// A frame holds red, green and blue of each of the 44 LEDs in their order; LEDs without a
/// colour are black.
pub proof fn frames_hold_every_led(colors: &[RgbColor], r: [u8; 132], i: int)
    requires
        call_ensures(build_frame, (colors,), r),
        0 <= i < 44,
    ensures
        i < colors@.len() ==> r@[3 * i] == colors@[i].r && r@[3 * i + 1] == colors@[i].g && r@[3 * i
            + 2] == colors@[i].b,
        i >= colors@.len() ==> r@[3 * i] == 0 && r@[3 * i + 1] == 0 && r@[3 * i + 2] == 0,
{
}

/// A fixed colour is shown by all 44 LEDs, colours per LED by theirs, and the monitor takes
/// over exactly where it is asked to; other states write nothing.
pub proof fn states_are_shown(d: PhilipsEvniaAmbiglow, state: RgbState, r: AmbiglowAction, i: int)
    requires
        call_ensures(PhilipsEvniaAmbiglow::set_state, (&d, &state), r),
        0 <= i < 44,
    ensures
        state matches RgbState::Static { color } ==> (r matches AmbiglowAction::Write(c) && c@.len()
            == 44 && c@[i] == color),
        state matches RgbState::PerLed { zones } ==> (r is Write <==> zone_named(
            zones@,
            "ambiglow"@,
        ) is Some),
        state matches RgbState::PerLed { zones } ==> (r matches AmbiglowAction::Write(c)
            ==> c@.len() == 44 && c@[i] == led_frame(zone_named(zones@, "ambiglow"@)->Some_0, 44)[i]),
        r is Release <==> (state matches RgbState::NativeEffect { id, .. } && id@ == "monitor"@),
        state is Engine || state is DirectEffect ==> r is Nothing,
{
}

/// Colours are shown by arming the strip, unless it is held already, and writing the frame
/// buffer last; the strip is armed by the same block at two addresses.
pub proof fn colors_are_written_to_the_frame_buffer(
    d: PhilipsEvniaAmbiglow,
    colors: &[RgbColor],
    r: Result<Vec<ControlTransfer>, DdcError>,
    i: int,
)
    requires
        call_ensures(PhilipsEvniaAmbiglow::write_colors, (&d, colors), r),
        0 <= i < 44,
        i < colors@.len(),
    ensures
        r is Ok <==> d.protocol.connected,
        r matches Ok(w) ==> {
            &&& w@.len() == if d.captured {
                1nat
            } else {
                3nat
            }
            &&& w@.last().index == 0xE100 && w@.last().data@.len() == 132
            &&& w@.last().data@[3 * i] == colors@[i].r
            &&& w@.last().data@[3 * i + 1] == colors@[i].g
            &&& w@.last().data@[3 * i + 2] == colors@[i].b
            &&& !d.captured ==> w@[0].index == 0xE020 && w@[1].index == 0xE030 && w@[0].data@
                == w@[1].data@ && w@[0].data@ == seq![
                0x01u8, 0x00, 0x02, 0x04, 0x00, 0x05, 0x00, 0x00, 0x00, 0x02, 0xFF, 0x00, 0x00,
                0x00, 0x00, 0x01,
            ]
        },
{
    let blocks = CONTROL_BLOCKS;
    let block = CAPTURE_BLOCK;
    assert(blocks@[0] == 0xE020 && blocks@[1] == 0xE030);
    assert(block@ =~= seq![
        0x01u8, 0x00, 0x02, 0x04, 0x00, 0x05, 0x00, 0x00, 0x00, 0x02, 0xFF, 0x00, 0x00, 0x00, 0x00,
        0x01,
    ]);
    if r is Ok && !d.captured {
        let w = r->Ok_0@;
        assert(w.drop_last()[0] == w[0] && w.drop_last()[1] == w[1]);
    }
}

/// Frames for the strip are written as its colours are; frames for other zones are ignored.
pub proof fn frames_of_other_zones_are_ignored(
    d: PhilipsEvniaAmbiglow,
    zone: &str,
    colors: &[RgbColor],
    r: Result<Vec<ControlTransfer>, DdcError>,
)
    requires
        call_ensures(PhilipsEvniaAmbiglow::write_frame, (&d, zone, colors), r),
    ensures
        zone@ != "ambiglow"@ ==> r is Ok && r->Ok_0@.len() == 0,
        zone@ == "ambiglow"@ ==> (r is Ok <==> d.protocol.connected),
        zone@ == "ambiglow"@ && r is Ok ==> r->Ok_0@.len() > 0 && r->Ok_0@.last().index == 0xE100
            && r->Ok_0@.last().data@ == frame_bytes(colors@),
{
}

/// The strip is handed back by writing the control region with direct control switched off.
pub proof fn releases_restore_the_control_region(
    d: PhilipsEvniaAmbiglow,
    r: Result<ControlTransfer, DdcError>,
)
    requires
        call_ensures(PhilipsEvniaAmbiglow::release, (&d,), r),
    ensures
        r is Ok <==> d.protocol.connected,
        r matches Ok(t) ==> t.index == 0xE020 && t.data@.len() == 64 && t.data@.take(16) == seq![
            0x00u8, 0x01, 0x02, 0x00, 0x00, 0x05, 0x00, 0x00, 0x00, 0x02, 0xFF, 0x00, 0x00, 0x00,
            0x00, 0x00,
        ] && t.data@.subrange(16, 32) == seq![
            0x00u8, 0x00, 0x02, 0x00, 0x00, 0x05, 0x00, 0x00, 0x00, 0x02, 0xFF, 0x00, 0x00, 0x00,
            0x00, 0x00,
        ] && t.data@[42] == 0xFF && forall|i: int|
            32 <= i < 64 && i != 42 ==> #[trigger] t.data@[i] == 0,
{
    let b = BASELINE_REGION;
    assert(b@.take(16) =~= seq![
        0x00u8, 0x01, 0x02, 0x00, 0x00, 0x05, 0x00, 0x00, 0x00, 0x02, 0xFF, 0x00, 0x00, 0x00, 0x00,
        0x00,
    ]);
    assert(b@.subrange(16, 32) =~= seq![
        0x00u8, 0x00, 0x02, 0x00, 0x00, 0x05, 0x00, 0x00, 0x00, 0x02, 0xFF, 0x00, 0x00, 0x00, 0x00,
        0x00,
    ]);
}

/// The strip counts as held once both arming writes went through, and a release ends that;
/// a frame counts as shown once all its writes did.
pub proof fn the_strip_is_held_between_capture_and_release(
    d: &mut PhilipsEvniaAmbiglow,
    succeeded: usize,
    now_ms: u64,
    wait: Option<u64>,
    later_ms: u64,
)
    requires
        call_ensures(PhilipsEvniaAmbiglow::colors_written, (d, succeeded, now_ms), ()),
        call_ensures(PhilipsEvniaAmbiglow::settle_remaining, (final(d), later_ms), wait),
        now_ms <= later_ms,
    ensures
        !old(d).captured ==> (final(d).captured <==> succeeded >= 2),
        old(d).captured ==> final(d).captured,
        old(d).captured && succeeded >= 1 || succeeded >= 3 ==> (wait is Some <==> later_ms < now_ms
            + 10) && (wait is Some ==> later_ms + wait->Some_0 == now_ms + 10),
        !old(d).captured && succeeded < 3 ==> final(d).last_frame_ms == old(d).last_frame_ms,
{
}

/// The LEDs run up the right edge, from right to left along the top, down the left edge and
/// then down the middle in two columns.
pub proof fn the_strip_runs_around_the_screen(i: int, j: int)
    requires
        0 <= i < j < 44,
    ensures
        j < 4 ==> led_position(j).y < led_position(i).y && led_position(i).x == led_position(j).x
            && led_position(i).x > 2000,
        4 <= i && j < 20 ==> led_position(j).x < led_position(i).x && led_position(i).y == 0
            && led_position(j).y == 0,
        20 <= i && j < 24 ==> led_position(j).y > led_position(i).y && led_position(i).x
            == led_position(j).x && led_position(i).x < 100,
        24 <= i && j < 35 || 35 <= i ==> led_position(j).y > led_position(i).y && led_position(i).x
            == 1050 && led_position(j).x == 1050,
        led_position(0).y == 2100 && led_position(3).y == 0 && led_position(20).y == 0 && led_position(
            23,
        ).y == 2100,
{
}

/// LEDs are numbered in order. The edges stand 42 from the sides with a third of the
/// height between two LEDs, those along the top 114 apart in two halves, and those in the
/// middle 84 apart above the mount and 105 below it.
pub proof fn leds_have_their_distances(r: Vec<LedPosition>, i: int)
    requires
        call_ensures(ambiglow_positions, (), r),
        0 <= i < 44,
    ensures
        r@.len() == 44,
        r@[i].id == i,
        i < 4 ==> r@[i].x == 2100 - 42 && r@[i].y + 700 * i == 2100,
        4 <= i < 12 ==> r@[i].y == 0 && r@[i].x + 114 * (i - 4) == 1890,
        12 <= i < 20 ==> r@[i].y == 0 && r@[i].x + 114 * (i - 12) == 1008,
        20 <= i < 24 ==> r@[i].x == 42 && r@[i].y == 700 * (i - 20),
        24 <= i < 35 ==> r@[i].x == 1050 && r@[i].y == 105 + 84 * (i - 24),
        35 <= i ==> r@[i].x == 1050 && r@[i].y == 1155 + 105 * (i - 35),
{
}

/// Only the effect `monitor` hands the strip back. One colour for all fills all 44 LEDs,
/// and colours by LED are those of the zone `ambiglow`, without which, as for every other
/// state, there is no frame.
pub proof fn states_become_frames(
    state: RgbState,
    release: bool,
    r: Option<Vec<RgbColor>>,
    zones: &[ZoneLeds],
    zone: Option<&Vec<(u32, RgbColor)>>,
    leds: &[(u32, RgbColor)],
    frame: Vec<RgbColor>,
    i: int,
)
    requires
        call_ensures(is_monitor_release, (&state,), release),
        call_ensures(colors_from_state, (&state,), r),
        state matches RgbState::PerLed { zones: z } ==> z@ == zones@,
        call_ensures(find_zone, (zones, "ambiglow"), zone),
        zone matches Some(z) ==> z@ == leds@,
        call_ensures(per_led_frame, (leds, 44usize), frame),
        0 <= i < 44,
    ensures
        release <==> (state matches RgbState::NativeEffect { id, .. } && id@ == "monitor"@),
        state matches RgbState::Static { color } ==> r is Some && r->Some_0@.len() == 44
            && r->Some_0@[i] == color,
        state is PerLed ==> (r is Some <==> zone is Some),
        state is PerLed && r is Some ==> r->Some_0@ == frame@,
        !(state is Static) && !(state is PerLed) ==> r is None,
{
}

/// A strip that is held needs no arming; one that is not is armed by the two writes that
/// stand before the frame when colours are shown.
pub proof fn strips_are_armed_once(
    d: PhilipsEvniaAmbiglow,
    colors: &[RgbColor],
    r: Result<Vec<ControlTransfer>, DdcError>,
    w: Result<Vec<ControlTransfer>, DdcError>,
    closing: bool,
)
    requires
        call_ensures(PhilipsEvniaAmbiglow::ensure_capture, (&d,), r),
        call_ensures(PhilipsEvniaAmbiglow::write_colors, (&d, colors), w),
        call_ensures(PhilipsEvniaAmbiglow::close_releases, (&d,), closing),
    ensures
        d.captured ==> r is Ok && r->Ok_0@.len() == 0,
        !d.captured ==> (r is Ok <==> d.protocol.connected),
        !d.captured && r is Ok ==> r->Ok_0@.len() == 2 && w is Ok && r->Ok_0@[0].index
            == w->Ok_0@[0].index && r->Ok_0@[1].index == w->Ok_0@[1].index && r->Ok_0@[0].data@
            == w->Ok_0@[0].data@ && r->Ok_0@[1].data@ == w->Ok_0@[1].data@,
        closing <==> d.captured,
{
    if !d.captured && r is Ok {
        let f = w->Ok_0@;
        assert(f.drop_last()[0] == f[0] && f.drop_last()[1] == f[1]);
    }
}

/// A new strip is the monitor's; a release gives it back. The state that was applied last
/// is the one that is told.
pub proof fn strips_start_with_the_monitor(
    fresh: PhilipsEvniaAmbiglow,
    d: &mut PhilipsEvniaAmbiglow,
    e: &mut PhilipsEvniaAmbiglow,
    state: RgbState,
    told: Option<&RgbState>,
    none: Option<&RgbState>,
)
    requires
        call_ensures(PhilipsEvniaAmbiglow::new, (), fresh),
        call_ensures(PhilipsEvniaAmbiglow::current_state, (&fresh,), none),
        call_ensures(PhilipsEvniaAmbiglow::released, (d,), ()),
        call_ensures(PhilipsEvniaAmbiglow::state_applied, (e, state), ()),
        call_ensures(PhilipsEvniaAmbiglow::current_state, (&*final(e),), told),
    ensures
        fresh.id@ == "philips_evnia_ambiglow_"@ + hex(0x0CF2, 4) + "_"@ + hex(0xB201, 4),
        !fresh.captured && !fresh.protocol.connected && fresh.last_frame_ms is None,
        none is None,
        !final(d).captured && final(d).last_frame_ms == old(d).last_frame_ms,
        told == Some(&state),
        final(e).captured == old(e).captured,
{
}

/// A strip is shown under its own names.
pub proof fn strips_have_their_names(
    d: PhilipsEvniaAmbiglow,
    name: &'static str,
    vendor: &'static str,
    model: &'static str,
    kind: DeviceType,
)
    requires
        call_ensures(PhilipsEvniaAmbiglow::name, (&d,), name),
        call_ensures(PhilipsEvniaAmbiglow::vendor, (&d,), vendor),
        call_ensures(PhilipsEvniaAmbiglow::model, (&d,), model),
        call_ensures(PhilipsEvniaAmbiglow::wire_device_type, (&d,), kind),
    ensures
        name == "Philips Evnia 49 Ambiglow" && vendor == "Philips" && model
            == "49M2C8900 (Ambiglow)",
        kind == DeviceType::Monitor,
{
}

} // verus!
