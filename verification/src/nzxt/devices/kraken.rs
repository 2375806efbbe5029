//! NZXT Kraken coolers as devices: what each model has, what a lighting state sends, and
//! what its screen shows.

use crate::nzxt::devices::f_fan::{candidate_from, next_candidate};
use crate::nzxt::protocols::nzxt::AccessoryInfo;
use crate::nzxt::protocols::nzxt_kraken::lcd::{BUCKET_SWITCH, CONFIG};
use crate::nzxt::protocols::nzxt_kraken::{
    flat_curve, is_x3_frame, is_ze_frame, logo_packet, ring_bytes, KrakenRgbCache, KrakenWire,
    KrakenStatus, NzxtKrakenProtocol, FAN_DUTY, PUMP_DUTY, PUMP_DUTY_MIN, RING_BUF_LEN,
};
use crate::rgb::{
    black, find_zone, led_color, led_frame, no_light, per_led_frame, solid_frame, zone_named,
    RgbColor, RgbDescriptor, RgbState, RgbZone, ZoneLeds, ZoneTopology,
};
use crate::text::{chars_of, decimal, hex, hex_string, owned, push_decimal, same_text};
use crate::types::{
    copy_option, same_option, ChannelDescriptor, DeviceCapability, DeviceType, LcdDescriptor,
    LcdMode, PumpStatus, ScreenShape, Sensor, SensorType, SensorUnit, VisibilityState, WireDevice,
};
use vstd::prelude::*;
use vstd::slice::*;

verus! {

/// Most LEDs that the firmware takes on the accessory header.
pub const MAX_NZXT_KRAKEN_CHAIN_LEDS: u32 = 96;

/// USB vendor id.
pub const KRAKEN_VID: u16 = 0x1E71;

/// USB product ids of the supported models.
pub const KRAKEN_PIDS: [u16; 7] = [0x2007, 0x2014, 0x3008, 0x300C, 0x300E, 0x3012, 0x3014];

/// What a model has. The screen size means nothing where there is no screen.
#[derive(Debug, Clone, Copy)]
pub struct KrakenProfile {
    pub model_name: &'static str,
    pub wire: KrakenWire,
    pub has_lcd: bool,
    pub has_fan_channel: bool,
    /// The X-series pump hangs on a mainboard header.
    pub has_pump_control: bool,
    pub has_logo: bool,
    pub ring_led_count: usize,
    pub lcd_size: (u32, u32),
}

/// What the model with a product id has; unknown ids count as the Z63.
pub open spec fn profile_of(pid: u16) -> KrakenProfile {
    if pid == 0x2007 || pid == 0x2014 {
        KrakenProfile {
            model_name: "Kraken X53/X63/X73",
            wire: KrakenWire::X3,
            has_lcd: false,
            has_fan_channel: false,
            has_pump_control: false,
            has_logo: true,
            ring_led_count: 8,
            lcd_size: (0, 0),
        }
    } else if pid == 0x300C {
        KrakenProfile {
            model_name: "Kraken Elite 2023",
            wire: KrakenWire::ZElite,
            has_lcd: true,
            has_fan_channel: true,
            has_pump_control: true,
            has_logo: false,
            ring_led_count: 24,
            lcd_size: (640, 640),
        }
    } else if pid == 0x300E {
        KrakenProfile {
            model_name: "Kraken 2023",
            wire: KrakenWire::ZElite,
            has_lcd: true,
            has_fan_channel: true,
            has_pump_control: true,
            has_logo: false,
            ring_led_count: 24,
            lcd_size: (240, 240),
        }
    } else if pid == 0x3012 {
        KrakenProfile {
            model_name: "Kraken Elite RGB 2024",
            wire: KrakenWire::ZElite,
            has_lcd: true,
            has_fan_channel: true,
            has_pump_control: true,
            has_logo: false,
            ring_led_count: 24,
            lcd_size: (640, 640),
        }
    } else if pid == 0x3014 {
        KrakenProfile {
            model_name: "Kraken Plus 2024",
            wire: KrakenWire::ZElite,
            has_lcd: true,
            has_fan_channel: true,
            has_pump_control: true,
            has_logo: false,
            ring_led_count: 24,
            lcd_size: (240, 240),
        }
    } else {
        KrakenProfile {
            model_name: "Kraken Z53/63/73",
            wire: KrakenWire::ZElite,
            has_lcd: true,
            has_fan_channel: true,
            has_pump_control: true,
            has_logo: false,
            ring_led_count: 24,
            lcd_size: (320, 320),
        }
    }
}

/// What the model with a product id has; unknown ids count as the Z63.
pub fn kraken_profile(pid: u16) -> (r: KrakenProfile)
    ensures
        r == profile_of(pid),
{
    match pid {
        0x2007 | 0x2014 => KrakenProfile {
            model_name: "Kraken X53/X63/X73",
            wire: KrakenWire::X3,
            has_lcd: false,
            has_fan_channel: false,
            has_pump_control: false,
            has_logo: true,
            ring_led_count: 8,
            lcd_size: (0, 0),
        },
        0x300C => KrakenProfile {
            model_name: "Kraken Elite 2023",
            wire: KrakenWire::ZElite,
            has_lcd: true,
            has_fan_channel: true,
            has_pump_control: true,
            has_logo: false,
            ring_led_count: 24,
            lcd_size: (640, 640),
        },
        0x300E => KrakenProfile {
            model_name: "Kraken 2023",
            wire: KrakenWire::ZElite,
            has_lcd: true,
            has_fan_channel: true,
            has_pump_control: true,
            has_logo: false,
            ring_led_count: 24,
            lcd_size: (240, 240),
        },
        0x3012 => KrakenProfile {
            model_name: "Kraken Elite RGB 2024",
            wire: KrakenWire::ZElite,
            has_lcd: true,
            has_fan_channel: true,
            has_pump_control: true,
            has_logo: false,
            ring_led_count: 24,
            lcd_size: (640, 640),
        },
        0x3014 => KrakenProfile {
            model_name: "Kraken Plus 2024",
            wire: KrakenWire::ZElite,
            has_lcd: true,
            has_fan_channel: true,
            has_pump_control: true,
            has_logo: false,
            ring_led_count: 24,
            lcd_size: (240, 240),
        },
        _ => KrakenProfile {
            model_name: "Kraken Z53/63/73",
            wire: KrakenWire::ZElite,
            has_lcd: true,
            has_fan_channel: true,
            has_pump_control: true,
            has_logo: false,
            ring_led_count: 24,
            lcd_size: (320, 320),
        },
    }
}

/// Whether a HID device is a supported Kraken.
pub fn matches_hid(vid: u16, pid: u16) -> (r: bool)
    ensures
        r == (vid == KRAKEN_VID && KRAKEN_PIDS@.contains(pid)),
{
    if vid != KRAKEN_VID {
        return false;
    }
    let mut i: usize = 0;
    while i < 7
        invariant
            i <= 7,
            vid == KRAKEN_VID,
            forall|k: int| 0 <= k < i ==> KRAKEN_PIDS@[k] != pid,
        decreases 7 - i,
    {
        if KRAKEN_PIDS[i] == pid {
            proof {
                assert(KRAKEN_PIDS@[i as int] == pid);
            }
            return true;
        }
        i = i + 1;
    }
    false
}

/// What a model can be used as.
#[derive(Debug, Clone, Copy, PartialEq, Eq, Structural)]
pub enum KrakenCapability {
    Controller,
    Rgb,
    Sensor,
    Chain,
    Fan,
    Lcd,
}

/// Colours to show, and whether the ring ones are still subject to the zone's transform.
#[derive(Debug)]
pub struct KrakenFrame {
    pub ring: Vec<RgbColor>,
    pub transform_ring: bool,
    pub logo: Option<RgbColor>,
}

/// How a picture is brought to the screen.
#[derive(Debug, Clone, Copy, PartialEq, Eq, Structural)]
pub enum ImagePath {
    /// Animations go into a memory bucket and play on their own.
    Bucket,
    /// Still pictures are decoded and streamed as one frame.
    Stream,
}

/// What has to be done to restore a saved screen.
#[derive(Debug)]
pub enum RestorePlan {
    /// A template is active; its engine pushes the frames.
    Engine,
    /// Read this picture and show it; where it is missing, reset the screen.
    ShowImage(String),
    /// Show the built-in display.
    Reset,
}

/// What is to be shown on the screen.
#[derive(Debug)]
pub struct LcdState {
    pub brightness: u8,
    pub rotation: u32,
    pub mode: LcdMode,
    pub active_image: Option<String>,
}

/// The colours for the ring, without the transform.
pub open spec fn ring_colors(state: RgbState, count: nat) -> Option<Seq<RgbColor>> {
    match state {
        RgbState::Static { color } => Some(Seq::new(count, |i: int| color)),
        RgbState::PerLed { zones } => Some(
            match zone_named(zones@, "ring"@) {
                Some(leds) => led_frame(leds, count),
                None => Seq::new(count, |i: int| black()),
            },
        ),
        _ => None,
    }
}

/// The colour for the logo.
pub open spec fn logo_color(state: RgbState) -> RgbColor {
    match state {
        RgbState::Static { color } => color,
        RgbState::PerLed { zones } => match zone_named(zones@, "logo"@) {
            Some(leds) => led_color(leds, 0),
            None => black(),
        },
        _ => black(),
    }
}

/// The signatures of a GIF file.
pub open spec fn is_gif(data: Seq<u8>) -> bool {
    &&& data.len() >= 6
    &&& data[0] == 0x47 && data[1] == 0x49 && data[2] == 0x46 && data[3] == 0x38
    &&& data[4] == 0x37 || data[4] == 0x39
    &&& data[5] == 0x61
}

/// Whether a file name ends in `.gif`.
pub open spec fn ends_in_gif(name: Seq<char>) -> bool {
    name.len() >= 4 && name.subrange(name.len() - 4, name.len() as int) == ".gif"@
}

/// Whether a file name ends in `.gif`.
fn has_gif_suffix(name: &str) -> (r: bool)
    ensures
        r == ends_in_gif(name@),
{
    let c = chars_of(name);
    let n: usize = c.len();
    proof {
        reveal_strlit(".gif");
    }
    let r = n >= 4 && c[n - 4] == '.' && c[n - 3] == 'g' && c[n - 2] == 'i' && c[n - 1] == 'f';
    proof {
        if n >= 4 {
            let tail = name@.subrange(n - 4, n as int);
            if r {
                assert(tail =~= ".gif"@);
            } else {
                assert(tail[0] == name@[n - 4]);
                assert(tail[1] == name@[n - 3]);
                assert(tail[2] == name@[n - 2]);
                assert(tail[3] == name@[n - 1]);
            }
        }
    }
    r
}

/// A Kraken.
#[derive(Debug)]
pub struct NZXTKraken {
    pub id: String,
    pub serial_number: Option<String>,
    pub vid: u16,
    pub pid: u16,
    pub protocol: NzxtKrakenProtocol,
    /// What the device was asked to show last.
    pub rgb: Option<RgbState>,
    pub lcd: LcdState,
    /// What the user chose for sensors, by sensor id.
    pub sensor_visibility: Vec<(String, VisibilityState)>,
}

/// What was chosen for the sensor `id`, from entry `i` on.
pub open spec fn chosen_from(
    list: Seq<(String, VisibilityState)>,
    id: Seq<char>,
    i: nat,
) -> Option<VisibilityState>
    decreases list.len() - i,
{
    if i >= list.len() {
        None
    } else if list[i as int].0@ == id {
        Some(list[i as int].1)
    } else {
        chosen_from(list, id, i + 1)
    }
}

/// Replacing the first entry of a sensor changes what was chosen for it and nothing else.
proof fn lemma_chosen_replaced(
    list: Seq<(String, VisibilityState)>,
    k: int,
    entry: (String, VisibilityState),
    id: Seq<char>,
    i: nat,
)
    requires
        i <= k < list.len(),
        list[k].0@ == entry.0@,
        forall|j: int| i <= j < k ==> (#[trigger] list[j]).0@ != entry.0@,
    ensures
        chosen_from(list.update(k, entry), id, i) == if id == entry.0@ {
            Some(entry.1)
        } else {
            chosen_from(list, id, i)
        },
    decreases list.len() - i,
{
    let after = list.update(k, entry);
    if i < k {
        assert(after[i as int] == list[i as int]);
        lemma_chosen_replaced(list, k, entry, id, i + 1);
    } else if id != entry.0@ {
        lemma_chosen_alike(list, after, id, (i + 1) as nat);
    }
}

/// What was chosen from entry `i` on depends on those entries alone.
proof fn lemma_chosen_alike(
    a: Seq<(String, VisibilityState)>,
    b: Seq<(String, VisibilityState)>,
    id: Seq<char>,
    i: nat,
)
    requires
        a.len() == b.len(),
        forall|j: int| i <= j < a.len() ==> a[j] == b[j],
    ensures
        chosen_from(a, id, i) == chosen_from(b, id, i),
    decreases a.len() - i,
{
    if i < a.len() {
        lemma_chosen_alike(a, b, id, i + 1);
    }
}

/// A new entry for a sensor without one changes what was chosen for it and nothing else.
proof fn lemma_chosen_added(
    list: Seq<(String, VisibilityState)>,
    entry: (String, VisibilityState),
    id: Seq<char>,
    i: nat,
)
    requires
        i <= list.len(),
        forall|j: int| i <= j < list.len() ==> (#[trigger] list[j]).0@ != entry.0@,
    ensures
        chosen_from(list.push(entry), id, i) == if id == entry.0@ {
            Some(entry.1)
        } else {
            chosen_from(list, id, i)
        },
    decreases list.len() - i,
{
    let after = list.push(entry);
    if i < list.len() {
        assert(after[i as int] == list[i as int]);
        lemma_chosen_added(list, entry, id, i + 1);
    } else {
        assert(chosen_from(after, id, i + 1) is None);
    }
}

impl NZXTKraken {
    /// The protocol state belongs to the model.
    pub open spec fn wf(self) -> bool {
        &&& self.protocol.wf()
        &&& self.protocol.wire == profile_of(self.pid).wire
    }

    /// A Kraken about which nothing is known.
    pub fn new(id: String, serial_number: Option<String>, vid: u16, pid: u16) -> (r: Self)
        ensures
            r.wf(),
            r.id == id,
            r.serial_number == serial_number,
            r.vid == vid,
            r.pid == pid,
            r.protocol.status == (KrakenStatus {
                liquid_temp_tenths: 0,
                pump_rpm: 0,
                pump_duty: 0,
                fan_rpm: 0,
                fan_duty: 0,
            }),
            r.protocol.active_bucket is None,
            !r.protocol.polling_paused,
            r.protocol.rgb_cache matches KrakenRgbCache::ZElite { ring_grb, ext_grb } ==> ring_grb@
                == Seq::new(RING_BUF_LEN as nat, |i: int| 0u8) && ext_grb@.len() == 0,
            r.rgb is None,
            r.sensor_visibility@.len() == 0,
            r.lcd.mode == LcdMode::Default,
            r.lcd.active_image is None,
            r.lcd.brightness == 0,
            r.lcd.rotation == 0,
    {
        NZXTKraken {
            id,
            serial_number,
            vid,
            pid,
            protocol: NzxtKrakenProtocol::new(kraken_profile(pid).wire),
            rgb: None,
            lcd: LcdState {
                brightness: 0,
                rotation: 0,
                mode: LcdMode::Default,
                active_image: None,
            },
            sensor_visibility: Vec::new(),
        }
    }

    /// The model name of a product id.
    pub fn model_name_for(pid: u16) -> (r: &'static str)
        ensures
            r == profile_of(pid).model_name,
    {
        kraken_profile(pid).model_name
    }

    /// The screen size of a product id.
    pub fn lcd_size_for(pid: u16) -> (r: (u32, u32))
        ensures
            r == profile_of(pid).lcd_size,
    {
        kraken_profile(pid).lcd_size
    }

    /// The screen of a product id.
    pub fn build_lcd_descriptor(pid: u16) -> (r: LcdDescriptor)
        ensures
            r.shape == ScreenShape::Circle,
            (r.width, r.height) == profile_of(pid).lcd_size,
            r.supported_rotations@ == seq![0u32, 90, 180, 270],
            r.supported_image_types@ == seq!["image/png", "image/jpeg", "image/gif"],
    {
        let (w, h) = Self::lcd_size_for(pid);
        let supported_rotations: Vec<u32> = vec![0u32, 90, 180, 270];
        let supported_image_types: Vec<&'static str> = vec!["image/png", "image/jpeg", "image/gif"];
        proof {
            assert(supported_rotations@ =~= seq![0u32, 90, 180, 270]);
            assert(supported_image_types@ =~= seq!["image/png", "image/jpeg", "image/gif"]);
        }
        LcdDescriptor {
            shape: ScreenShape::Circle,
            width: w,
            height: h,
            supported_rotations,
            supported_image_types,
        }
    }

    /// The lighting zones of a product id: the ring, and the logo where there is one.
    pub open spec fn zones_of(pid: u16) -> Seq<RgbZone> {
        let ring = RgbZone {
            id: "ring",
            name: "Ring",
            topology: ZoneTopology::Ring,
            led_count: profile_of(pid).ring_led_count as u32,
        };
        if profile_of(pid).has_logo {
            seq![
                ring,
                RgbZone { id: "logo", name: "Logo", topology: ZoneTopology::Linear, led_count: 1 },
            ]
        } else {
            seq![ring]
        }
    }

    /// The lighting zones of a product id.
    pub fn build_rgb_descriptor(pid: u16) -> (r: RgbDescriptor)
        ensures
            r.zones@ == Self::zones_of(pid),
            r.native_effects@.len() == 0,
    {
        let profile = kraken_profile(pid);
        let mut zones: Vec<RgbZone> = vec![
            RgbZone {
                id: "ring",
                name: "Ring",
                topology: ZoneTopology::Ring,
                led_count: profile.ring_led_count as u32,
            },
        ];
        if profile.has_logo {
            zones.push(
                RgbZone { id: "logo", name: "Logo", topology: ZoneTopology::Linear, led_count: 1 },
            );
        }
        proof {
            assert(zones@ =~= Self::zones_of(pid));
        }
        RgbDescriptor { zones, native_effects: Vec::new() }
    }

    /// The colours that a state asks for; effect and engine states ask for none.
    pub fn apply_state(&self, state: &RgbState) -> (r: Option<KrakenFrame>)
        ensures
            match ring_colors(*state, profile_of(self.pid).ring_led_count as nat) {
                Some(c) => {
                    &&& r is Some
                    &&& r->Some_0.ring@ == c
                    &&& r->Some_0.transform_ring == (*state is PerLed)
                    &&& r->Some_0.logo == if profile_of(self.pid).has_logo {
                        Some(logo_color(*state))
                    } else {
                        None
                    }
                },
                None => r is None,
            },
    {
        let profile = kraken_profile(self.pid);
        let count: usize = profile.ring_led_count;
        match state {
            RgbState::Static { color } => {
                let logo = if profile.has_logo {
                    Some(*color)
                } else {
                    None
                };
                Some(KrakenFrame { ring: solid_frame(*color, count), transform_ring: false, logo })
            },
            RgbState::PerLed { zones } => {
                let ring = match find_zone(zones, "ring") {
                    Some(leds) => per_led_frame(leds, count),
                    None => solid_frame(no_light(), count),
                };
                let logo = if profile.has_logo {
                    let leds = match find_zone(zones, "logo") {
                        Some(leds) => per_led_frame(leds, 1),
                        None => solid_frame(no_light(), 1),
                    };
                    Some(leds[0])
                } else {
                    None
                };
                Some(KrakenFrame { ring, transform_ring: true, logo })
            },
            _ => None,
        }
    }

    /// Remembers the state that the device shows now.
    pub fn state_applied(&mut self, state: RgbState)
        ensures
            *final(self) == (NZXTKraken { rgb: Some(state), ..*old(self) }),
    {
        self.rgb = Some(state);
    }

    /// The state that was applied last; none before the first.
    pub fn current_state(&self) -> (r: Option<&RgbState>)
        ensures
            match self.rgb {
                Some(state) => r == Some(&state),
                None => r is None,
            },
    {
        match &self.rgb {
            Some(state) => Some(state),
            None => None,
        }
    }

    /// The packets for one frame of an effect engine. The zone `logo` takes the first
    /// colour, or black; every other zone is the ring.
    pub fn write_frame(&mut self, zone_id: &str, colors: &[RgbColor]) -> (r: Vec<Vec<u8>>)
        requires
            zone_id@ == "logo"@ ==> old(self).protocol.wire is X3,
        ensures
            zone_id@ == "logo"@ ==> {
                &&& r@.len() == 1
                &&& r@[0]@ == logo_packet(
                    if colors@.len() > 0 {
                        colors@[0]
                    } else {
                        black()
                    },
                )
                &&& *final(self) == *old(self)
            },
            zone_id@ != "logo"@ ==> {
                &&& *final(self) == (NZXTKraken { protocol: final(self).protocol, ..*old(self) })
                &&& final(self).protocol.wire == old(self).protocol.wire
                &&& final(self).protocol.status == old(self).protocol.status
                &&& final(self).protocol.active_bucket == old(self).protocol.active_bucket
                &&& final(self).protocol.polling_paused == old(self).protocol.polling_paused
                &&& match old(self).protocol.rgb_cache {
                    KrakenRgbCache::X3 => final(self).protocol.rgb_cache is X3 && is_x3_frame(
                        r@,
                        0x02,
                        colors@,
                    ),
                    KrakenRgbCache::ZElite { ring_grb, ext_grb } => {
                        &&& final(self).protocol.rgb_cache matches KrakenRgbCache::ZElite {
                            ring_grb: ring,
                            ext_grb: ext,
                        } && ring@ == ring_bytes(colors@) && ext@ == ext_grb@
                        &&& is_ze_frame(r@, ring_bytes(colors@), ext_grb@)
                    },
                }
            },
    {
        if same_text(zone_id, "logo") {
            let color: RgbColor = if colors.len() > 0 {
                colors[0]
            } else {
                no_light()
            };
            let pkt = self.protocol.write_logo(color);
            let bytes = slice_to_vec(&pkt);
            vec![bytes]
        } else {
            self.protocol.write_ring_frame(colors)
        }
    }

    /// What the model can be used as. The pump can be driven where it hangs on USB and
    /// the device is not hidden.
    pub open spec fn capabilities_of(pid: u16, visible: bool) -> Seq<KrakenCapability> {
        let base = seq![
            KrakenCapability::Controller,
            KrakenCapability::Rgb,
            KrakenCapability::Sensor,
            KrakenCapability::Chain,
        ];
        let fan = if profile_of(pid).has_pump_control && visible {
            base.push(KrakenCapability::Fan)
        } else {
            base
        };
        if profile_of(pid).has_lcd {
            fan.push(KrakenCapability::Lcd)
        } else {
            fan
        }
    }

    /// What the model can be used as.
    pub fn capabilities(&self, visible: bool) -> (r: Vec<KrakenCapability>)
        ensures
            r@ == Self::capabilities_of(self.pid, visible),
    {
        let profile = kraken_profile(self.pid);
        let mut caps: Vec<KrakenCapability> = vec![
            KrakenCapability::Controller,
            KrakenCapability::Rgb,
            KrakenCapability::Sensor,
            KrakenCapability::Chain,
        ];
        if profile.has_pump_control && visible {
            caps.push(KrakenCapability::Fan);
        }
        if profile.has_lcd {
            caps.push(KrakenCapability::Lcd);
        }
        proof {
            assert(caps@ =~= Self::capabilities_of(self.pid, visible));
        }
        caps
    }

    /// The id of the liquid temperature sensor.
    pub open spec fn liquid_sensor_id(self) -> Seq<char> {
        self.id@ + "_liquid_temp"@
    }

    /// What was chosen for a sensor; sensors are visible unless something was chosen.
    pub open spec fn visibility_of(self, sensor_id: Seq<char>) -> VisibilityState {
        match chosen_from(self.sensor_visibility@, sensor_id, 0) {
            Some(state) => state,
            None => VisibilityState::Visible,
        }
    }

    /// The entry of a sensor, or one past the last entry.
    fn find_choice(&self, sensor_id: &str) -> (r: usize)
        ensures
            r <= self.sensor_visibility@.len(),
            forall|j: int|
                0 <= j < r ==> (#[trigger] self.sensor_visibility@[j]).0@ != sensor_id@,
            r < self.sensor_visibility@.len() ==> self.sensor_visibility@[r as int].0@
                == sensor_id@,
            chosen_from(self.sensor_visibility@, sensor_id@, 0) == if r
                < self.sensor_visibility@.len() {
                Some(self.sensor_visibility@[r as int].1)
            } else {
                None
            },
    {
        let n: usize = self.sensor_visibility.len();
        let mut i: usize = 0;
        while i < n
            invariant
                i <= n,
                n == self.sensor_visibility@.len(),
                forall|j: int|
                    0 <= j < i ==> (#[trigger] self.sensor_visibility@[j]).0@ != sensor_id@,
                chosen_from(self.sensor_visibility@, sensor_id@, i as nat) == chosen_from(
                    self.sensor_visibility@,
                    sensor_id@,
                    0,
                ),
            decreases n - i,
        {
            if same_text(self.sensor_visibility[i].0.as_str(), sensor_id) {
                return i;
            }
            i = i + 1;
        }
        n
    }

    /// Remembers what the user chose for a sensor.
    pub fn set_sensor_visibility(&mut self, sensor_id: &str, state: VisibilityState)
        ensures
            *final(self) == (NZXTKraken {
                sensor_visibility: final(self).sensor_visibility,
                ..*old(self)
            }),
            forall|id: Seq<char>|
                #![trigger final(self).visibility_of(id)]
                final(self).visibility_of(id) == if id == sensor_id@ {
                    state
                } else {
                    old(self).visibility_of(id)
                },
    {
        let k: usize = self.find_choice(sensor_id);
        let entry = (owned(sensor_id), state);
        let ghost before = self.sensor_visibility@;
        if k < self.sensor_visibility.len() {
            self.sensor_visibility.set(k, entry);
            proof {
                assert forall|id: Seq<char>| #[trigger] self.visibility_of(id) == if id == sensor_id@ {
                    state
                } else {
                    old(self).visibility_of(id)
                } by {
                    lemma_chosen_replaced(before, k as int, entry, id, 0);
                }
            }
        } else {
            self.sensor_visibility.push(entry);
            proof {
                assert forall|id: Seq<char>| #[trigger] self.visibility_of(id) == if id == sensor_id@ {
                    state
                } else {
                    old(self).visibility_of(id)
                } by {
                    lemma_chosen_added(before, entry, id, 0);
                }
            }
        }
    }

    /// The liquid temperature sensor.
    fn liquid_sensor(&self, visibility: VisibilityState) -> (r: Sensor)
        ensures
            self.is_liquid_sensor(r),
            r.visibility == visibility,
    {
        let mut id = self.id.clone();
        id.append("_liquid_temp");
        Sensor {
            id,
            name: owned("Liquid Temperature"),
            tenths: self.protocol.status.liquid_temp_tenths as i64,
            unit: SensorUnit::Celsius,
            sensor_type: SensorType::Temperature,
            visibility,
        }
    }

    /// The liquid temperature sensor, with what the user chose for it.
    pub fn get_sensors(&self) -> (r: Vec<Sensor>)
        ensures
            r@.len() == 1,
            self.is_liquid_sensor(r@[0]),
            r@[0].visibility == self.visibility_of(self.liquid_sensor_id()),
    {
        let mut id = self.id.clone();
        id.append("_liquid_temp");
        let k: usize = self.find_choice(id.as_str());
        let visibility = if k < self.sensor_visibility.len() {
            self.sensor_visibility[k].1
        } else {
            VisibilityState::Visible
        };
        vec![self.liquid_sensor(visibility)]
    }

    /// Whether `s` is the liquid temperature sensor.
    pub open spec fn is_liquid_sensor(self, s: Sensor) -> bool {
        &&& s.id@ == self.liquid_sensor_id()
        &&& s.name@ == "Liquid Temperature"@
        &&& s.tenths == self.protocol.status.liquid_temp_tenths
        &&& s.unit == SensorUnit::Celsius
        &&& s.sensor_type == SensorType::Temperature
    }

    /// The Kraken with all it shows: pump, sensors and lighting, the screen where there is
    /// one, and the children where there are any. The sensor is listed as visible whatever
    /// the user chose for it.
    pub fn serialize(&self, children: Vec<WireDevice>) -> (r: WireDevice)
        ensures
            r.id@ == self.id@,
            r.name == "NZXT Kraken",
            r.vendor == "NZXT",
            r.model == profile_of(self.pid).model_name,
            r.device_type == DeviceType::Aio,
            r.connected,
            same_option(r.serial_number, self.serial_number),
            r.control_layout@.len() == 0,
            ({
                let lcd: int = if profile_of(self.pid).has_lcd { 1 } else { 0 };
                let kids: int = if children@.len() > 0 { 1 } else { 0 };
                &&& r.capabilities@.len() == 3 + lcd + kids
                &&& r.capabilities@[0] == DeviceCapability::Pump(
                    PumpStatus {
                        rpm: self.protocol.status.pump_rpm,
                        duty: self.protocol.status.pump_duty,
                        controllable: profile_of(self.pid).has_pump_control,
                    },
                )
                &&& r.capabilities@[1] matches DeviceCapability::Sensors(v) && v@.len() == 1
                    && self.is_liquid_sensor(v@[0]) && v@[0].visibility == VisibilityState::Visible
                &&& r.capabilities@[2] matches DeviceCapability::Rgb(d) && d.zones@
                    == Self::zones_of(self.pid) && d.native_effects@.len() == 0
                &&& lcd == 1 ==> (r.capabilities@[3] matches DeviceCapability::Lcd(d) && (
                d.width, d.height) == profile_of(self.pid).lcd_size && d.shape
                    == ScreenShape::Circle && d.supported_rotations@ == seq![0u32, 90, 180, 270]
                    && d.supported_image_types@ == seq!["image/png", "image/jpeg", "image/gif"])
                &&& kids == 1 ==> r.capabilities@[3 + lcd] == DeviceCapability::Children(children)
            }),
    {
        let profile = kraken_profile(self.pid);
        let sensors: Vec<Sensor> = vec![self.liquid_sensor(VisibilityState::Visible)];
        let mut capabilities: Vec<DeviceCapability> = vec![
            DeviceCapability::Pump(
                PumpStatus {
                    rpm: self.protocol.status.pump_rpm,
                    duty: self.protocol.status.pump_duty,
                    controllable: profile.has_pump_control,
                },
            ),
            DeviceCapability::Sensors(sensors),
            DeviceCapability::Rgb(Self::build_rgb_descriptor(self.pid)),
        ];
        if profile.has_lcd {
            capabilities.push(DeviceCapability::Lcd(Self::build_lcd_descriptor(self.pid)));
        }
        if children.len() > 0 {
            capabilities.push(DeviceCapability::Children(children));
        }
        WireDevice {
            id: self.id.clone(),
            name: "NZXT Kraken",
            vendor: "NZXT",
            model: profile.model_name,
            device_type: DeviceType::Aio,
            connected: true,
            serial_number: copy_option(&self.serial_number),
            capabilities,
            control_layout: Vec::new(),
        }
    }

    /// Ids and model, and the screen size where there is a screen.
    pub fn debug_info_extra(&self) -> (r: Vec<(&'static str, String)>)
        ensures
            r@.len() == if profile_of(self.pid).has_lcd {
                4nat
            } else {
                3nat
            },
            r@[0].0 == "vid" && r@[0].1@ == hex(self.vid as nat, 4),
            r@[1].0 == "pid" && r@[1].1@ == hex(self.pid as nat, 4),
            r@[2].0 == "model" && r@[2].1@ == profile_of(self.pid).model_name@,
            profile_of(self.pid).has_lcd ==> r@[3].0 == "lcd_resolution" && r@[3].1@ == decimal(
                profile_of(self.pid).lcd_size.0 as nat,
            ) + "x"@ + decimal(profile_of(self.pid).lcd_size.1 as nat),
    {
        let profile = kraken_profile(self.pid);
        let mut out: Vec<(&'static str, String)> = vec![
            ("vid", hex_string(self.vid as u64, 4)),
            ("pid", hex_string(self.pid as u64, 4)),
            ("model", owned(profile.model_name)),
        ];
        if profile.has_lcd {
            let mut size = String::new();
            push_decimal(&mut size, profile.lcd_size.0 as u64);
            size.append("x");
            push_decimal(&mut size, profile.lcd_size.1 as u64);
            proof {
                assert(size@ =~= decimal(profile.lcd_size.0 as nat) + "x"@ + decimal(
                    profile.lcd_size.1 as nat,
                ));
            }
            out.push(("lcd_resolution", size));
        }
        out
    }

    /// The accessory to try next as the only child. The Kraken has one header, whatever
    /// the report says: candidates are tried in order until one can be registered.
    pub fn discover_children(accessories: &[AccessoryInfo], tried: usize) -> (r: Option<usize>)
        ensures
            match candidate_from(accessories@, tried as nat) {
                Some(i) => r is Some && r->Some_0 == i && i < accessories@.len(),
                None => r is None,
            },
    {
        next_candidate(accessories, tried)
    }

    /// The packet that sets the pump duty.
    pub fn set_duty(&self, duty: u8) -> (r: Vec<u8>)
        ensures
            r@ == PUMP_DUTY@ + flat_curve(duty, PUMP_DUTY_MIN),
    {
        NzxtKrakenProtocol::write_pump_duty(duty)
    }

    /// The packet that sets the duty of the fan header; models without one send nothing.
    pub fn set_fan_duty(&self, duty: u8) -> (r: Option<Vec<u8>>)
        ensures
            profile_of(self.pid).has_fan_channel ==> r is Some && r->Some_0@ == FAN_DUTY@
                + flat_curve(duty, 0),
            !profile_of(self.pid).has_fan_channel ==> r is None,
    {
        if !kraken_profile(self.pid).has_fan_channel {
            return None;
        }
        Some(NzxtKrakenProtocol::write_fan_duty(duty))
    }

    /// A fan that turns can be controlled.
    pub fn get_fan_controllable(&self) -> (r: bool)
        ensures
            r == (self.protocol.status.fan_rpm > 0),
    {
        self.protocol.status.fan_rpm > 0
    }

    /// The accessory header as a channel.
    pub fn channels() -> (r: Vec<ChannelDescriptor>)
        ensures
            r@.len() == 1,
            r@[0].channel_id@ == "0"@,
            r@[0].display_name@ == "External Accessory"@,
            r@[0].max_leds == MAX_NZXT_KRAKEN_CHAIN_LEDS,
    {
        vec![
            ChannelDescriptor {
                channel_id: owned("0"),
                display_name: owned("External Accessory"),
                max_leds: MAX_NZXT_KRAKEN_CHAIN_LEDS,
            },
        ]
    }

    /// How a picture is brought to the screen.
    pub fn set_image(data: &[u8]) -> (r: ImagePath)
        ensures
            r == if is_gif(data@) {
                ImagePath::Bucket
            } else {
                ImagePath::Stream
            },
    {
        if data.len() >= 6 && data[0] == 0x47 && data[1] == 0x49 && data[2] == 0x46 && data[3]
            == 0x38 && (data[4] == 0x37 || data[4] == 0x39) && data[5] == 0x61 {
            ImagePath::Bucket
        } else {
            ImagePath::Stream
        }
    }

    /// Takes over brightness and rotation as the screen reported them.
    pub fn lcd_state_read(&mut self, brightness: u8, rotation: u32)
        ensures
            *final(self) == (NZXTKraken {
                lcd: LcdState { brightness, rotation, ..old(self).lcd },
                ..*old(self)
            }),
    {
        self.lcd.brightness = brightness;
        self.lcd.rotation = rotation;
    }

    /// The packet that turns the screen, at its present brightness.
    pub fn set_rotation(&self, degrees: u32) -> (r: [u8; 8])
        ensures
            r@ == seq![
                CONFIG,
                0x02,
                0x01,
                self.lcd.brightness,
                0x00,
                0x00,
                0x01,
                (degrees / 90 % 4) as u8,
            ],
    {
        NzxtKrakenProtocol::write_screen_config(self.lcd.brightness, degrees)
    }

    /// The packet that sets the brightness, at the present rotation.
    pub fn set_brightness(&self, brightness: u8) -> (r: [u8; 8])
        ensures
            r@ == seq![
                CONFIG,
                0x02,
                0x01,
                brightness,
                0x00,
                0x00,
                0x01,
                (self.lcd.rotation / 90 % 4) as u8,
            ],
    {
        NzxtKrakenProtocol::write_screen_config(brightness, self.lcd.rotation)
    }

    /// The packet that brings back the built-in display.
    pub fn reset_to_default(&self) -> (r: [u8; 4])
        ensures
            r@ == seq![BUCKET_SWITCH, 0x01, 0x02, 0x00],
    {
        NzxtKrakenProtocol::switch_to_default_display()
    }

    /// Takes note of a reset: no bucket and no picture is shown any more.
    pub fn reset_done(&mut self)
        ensures
            final(self).lcd.mode == LcdMode::Default,
            final(self).lcd.active_image is None,
            final(self).protocol.active_bucket is None,
            *final(self) == (NZXTKraken {
                protocol: NzxtKrakenProtocol { active_bucket: None, ..old(self).protocol },
                lcd: LcdState { mode: LcdMode::Default, active_image: None, ..old(self).lcd },
                ..*old(self)
            }),
    {
        self.protocol.active_bucket = None;
        self.lcd.mode = LcdMode::Default;
        self.lcd.active_image = None;
    }

    /// Remembers which picture is shown. A name also says how it is shown.
    pub fn set_active_image_filename(&mut self, filename: Option<String>)
        ensures
            *final(self) == (NZXTKraken {
                lcd: LcdState {
                    mode: match filename {
                        Some(name) => if ends_in_gif(name@) {
                            LcdMode::Gif
                        } else {
                            LcdMode::Image
                        },
                        None => old(self).lcd.mode,
                    },
                    active_image: filename,
                    ..old(self).lcd
                },
                ..*old(self)
            }),
    {
        if let Some(name) = &filename {
            self.lcd.mode = if has_gif_suffix(name.as_str()) {
                LcdMode::Gif
            } else {
                LcdMode::Image
            };
        }
        self.lcd.active_image = filename;
    }

    /// What has to be done to restore a saved screen: an active template wins over a
    /// picture, and without either the built-in display comes back.
    pub fn restore_state(template_active: bool, active_image: Option<String>) -> (r: RestorePlan)
        ensures
            r == if template_active {
                RestorePlan::Engine
            } else {
                match active_image {
                    Some(name) => RestorePlan::ShowImage(name),
                    None => RestorePlan::Reset,
                }
            },
    {
        if template_active {
            return RestorePlan::Engine;
        }
        match active_image {
            Some(name) => RestorePlan::ShowImage(name),
            None => RestorePlan::Reset,
        }
    }
}

/// Only X-series models have a logo, and only models with a screen have a screen size.
pub proof fn profiles_are_consistent(pid: u16)
    ensures
        profile_of(pid).has_logo <==> profile_of(pid).wire is X3,
        profile_of(pid).has_lcd <==> profile_of(pid).lcd_size.0 > 0,
        profile_of(pid).lcd_size.0 == profile_of(pid).lcd_size.1,
        profile_of(pid).ring_led_count <= 24,
{
}

/// A state that asks for colours asks for exactly as many as the ring has.
pub proof fn frames_fill_the_ring(pid: u16, state: RgbState)
    ensures
        ring_colors(state, profile_of(pid).ring_led_count as nat) matches Some(c) ==> c.len()
            == profile_of(pid).ring_led_count,
{
}

/// Whether a product id is one of the X-series.
pub open spec fn is_x_series(pid: u16) -> bool {
    pid == 0x2007 || pid == 0x2014
}

/// The supported coolers are those of vendor `1E71` with one of seven product ids.
pub proof fn coolers_are_known_by_their_ids(vid: u16, pid: u16, r: bool)
    requires
        call_ensures(matches_hid, (vid, pid), r),
    ensures
        r <==> vid == 0x1E71 && (pid == 0x2007 || pid == 0x2014 || pid == 0x3008 || pid == 0x300C
            || pid == 0x300E || pid == 0x3012 || pid == 0x3014),
{
    let t = KRAKEN_PIDS;
    assert(t@.len() == 7);
    assert(t@[0] == 0x2007 && t@[1] == 0x2014 && t@[2] == 0x3008 && t@[3] == 0x300C && t@[4]
        == 0x300E && t@[5] == 0x3012 && t@[6] == 0x3014);
}

/// The X-series has a logo and a ring of 8, and neither screen nor fan header nor a pump
/// that can be driven. Every other model has all of these, a ring of 24 and no logo.
pub proof fn models_have_their_parts(pid: u16, r: KrakenProfile)
    requires
        call_ensures(kraken_profile, (pid,), r),
    ensures
        r.wire == KrakenWire::X3 <==> is_x_series(pid),
        r.has_logo <==> is_x_series(pid),
        r.has_lcd <==> !is_x_series(pid),
        r.has_fan_channel <==> !is_x_series(pid),
        r.has_pump_control <==> !is_x_series(pid),
        r.ring_led_count == if is_x_series(pid) {
            8usize
        } else {
            24
        },
{
}

/// Elite screens have 640 points a side, those of the 2023 and the Plus model 240 and
/// those of the Z-series 320; screens are round, as wide as high, and turn by quarters.
pub proof fn screens_have_their_size(pid: u16, size: (u32, u32), r: LcdDescriptor)
    requires
        call_ensures(NZXTKraken::lcd_size_for, (pid,), size),
        call_ensures(NZXTKraken::build_lcd_descriptor, (pid,), r),
    ensures
        size.0 == r.width && size.1 == r.height && r.width == r.height,
        pid == 0x300C || pid == 0x3012 ==> r.width == 640,
        pid == 0x300E || pid == 0x3014 ==> r.width == 240,
        is_x_series(pid) ==> r.width == 0,
        !is_x_series(pid) && pid != 0x300C && pid != 0x3012 && pid != 0x300E && pid != 0x3014
            ==> r.width == 320,
        r.shape == ScreenShape::Circle,
        r.supported_rotations@ == seq![0u32, 90, 180, 270],
        r.supported_image_types@ == seq!["image/png", "image/jpeg", "image/gif"],
{
}

/// Each product id has its name.
pub proof fn models_have_their_names(pid: u16, r: &'static str)
    requires
        call_ensures(NZXTKraken::model_name_for, (pid,), r),
    ensures
        is_x_series(pid) ==> r == "Kraken X53/X63/X73",
        pid == 0x300C ==> r == "Kraken Elite 2023",
        pid == 0x300E ==> r == "Kraken 2023",
        pid == 0x3012 ==> r == "Kraken Elite RGB 2024",
        pid == 0x3014 ==> r == "Kraken Plus 2024",
        !is_x_series(pid) && pid != 0x300C && pid != 0x3012 && pid != 0x300E && pid != 0x3014 ==> r
            == "Kraken Z53/63/73",
{
}

/// Every model has a ring as its first zone; only the X-series has the logo as a second,
/// with one LED.
pub proof fn zones_are_ring_and_logo(pid: u16, r: RgbDescriptor)
    requires
        call_ensures(NZXTKraken::build_rgb_descriptor, (pid,), r),
    ensures
        r.zones@.len() == if is_x_series(pid) {
            2nat
        } else {
            1nat
        },
        r.zones@[0].id == "ring" && r.zones@[0].name == "Ring" && r.zones@[0].topology
            == ZoneTopology::Ring,
        r.zones@[0].led_count == if is_x_series(pid) {
            8u32
        } else {
            24
        },
        is_x_series(pid) ==> r.zones@[1].id == "logo" && r.zones@[1].name == "Logo"
            && r.zones@[1].topology == ZoneTopology::Linear && r.zones@[1].led_count == 1,
        r.native_effects@.len() == 0,
{
}

/// One colour for all goes to every LED of the ring and to the logo. Colours by LED go to
/// the ring by the zone `ring`, dark where it is missing, and to the logo by LED 0 of the
/// zone `logo`. Other states ask for nothing. Only colours by LED are still subject to
/// the transform.
pub proof fn states_fill_ring_and_logo(
    d: NZXTKraken,
    state: RgbState,
    r: Option<KrakenFrame>,
    zones: &[ZoneLeds],
    ring: Option<&Vec<(u32, RgbColor)>>,
    leds: &[(u32, RgbColor)],
    frame: Vec<RgbColor>,
    i: int,
)
    requires
        call_ensures(NZXTKraken::apply_state, (&d, &state), r),
        state matches RgbState::PerLed { zones: z } ==> z@ == zones@,
        call_ensures(find_zone, (zones, "ring"), ring),
        ring matches Some(z) ==> z@ == leds@,
        call_ensures(
            per_led_frame,
            (
                leds,
                if is_x_series(d.pid) {
                    8usize
                } else {
                    24usize
                },
            ),
            frame,
        ),
        0 <= i < if is_x_series(d.pid) {
            8int
        } else {
            24int
        },
    ensures
        r is Some <==> state is Static || state is PerLed,
        r is Some ==> (r->Some_0.logo is Some <==> is_x_series(d.pid)),
        r is Some ==> r->Some_0.ring@.len() == if is_x_series(d.pid) {
            8nat
        } else {
            24nat
        },
        state matches RgbState::Static { color } ==> r->Some_0.ring@[i] == color
            && !r->Some_0.transform_ring && (is_x_series(d.pid) ==> r->Some_0.logo == Some(color)),
        state is PerLed ==> r->Some_0.transform_ring,
        state is PerLed && ring is Some ==> r->Some_0.ring@ == frame@,
        state is PerLed && ring is None ==> r->Some_0.ring@[i].r == 0 && r->Some_0.ring@[i].g == 0
            && r->Some_0.ring@[i].b == 0,
{
}

/// Of colours by LED, the logo of the X-series shows the one for LED 0 of the zone
/// `logo`, and none where that zone is missing.
pub proof fn logos_show_their_first_led(
    d: NZXTKraken,
    state: RgbState,
    r: Option<KrakenFrame>,
    zones: &[ZoneLeds],
    logo: Option<&Vec<(u32, RgbColor)>>,
    leds: &[(u32, RgbColor)],
    frame: Vec<RgbColor>,
)
    requires
        call_ensures(NZXTKraken::apply_state, (&d, &state), r),
        is_x_series(d.pid),
        state matches RgbState::PerLed { zones: z } && z@ == zones@,
        call_ensures(find_zone, (zones, "logo"), logo),
        logo matches Some(z) ==> z@ == leds@,
        call_ensures(per_led_frame, (leds, 1usize), frame),
    ensures
        r is Some,
        logo is Some ==> r->Some_0.logo == Some(frame@[0]),
        logo is None ==> r->Some_0.logo == Some(RgbColor { r: 0, g: 0, b: 0 }),
{
}

/// The state that was applied last is the one that is told.
pub proof fn applied_states_are_told(d: &mut NZXTKraken, state: RgbState, r: Option<&RgbState>)
    requires
        call_ensures(NZXTKraken::state_applied, (d, state), ()),
        call_ensures(NZXTKraken::current_state, (&*final(d),), r),
    ensures
        r == Some(&state),
        final(d).protocol == old(d).protocol,
        final(d).lcd == old(d).lcd,
{
}

/// A frame for the zone `logo` is the logo packet of its first colour, or of black; a
/// frame for any other zone is what the ring is sent.
pub proof fn frames_go_to_their_zone(
    d: &mut NZXTKraken,
    p: &mut NzxtKrakenProtocol,
    zone_id: &str,
    colors: &[RgbColor],
    r: Vec<Vec<u8>>,
    ring: Vec<Vec<u8>>,
    logo: [u8; 64],
)
    requires
        call_ensures(NZXTKraken::write_frame, (d, zone_id, colors), r),
        zone_id@ == "logo"@ ==> old(d).protocol.wire is X3,
        *old(p) == old(d).protocol,
        call_ensures(NzxtKrakenProtocol::write_ring_frame, (p, colors), ring),
        old(d).protocol.wire is X3 && colors@.len() > 0 ==> call_ensures(
            NzxtKrakenProtocol::write_logo,
            (&old(d).protocol, colors@[0]),
            logo,
        ),
        old(d).protocol.wire is X3 && colors@.len() == 0 ==> call_ensures(
            NzxtKrakenProtocol::write_logo,
            (&old(d).protocol, RgbColor { r: 0, g: 0, b: 0 }),
            logo,
        ),
    ensures
        zone_id@ == "logo"@ ==> r@.len() == 1 && r@[0]@ == logo@ && *final(d) == *old(d),
        zone_id@ != "logo"@ ==> r@.len() == ring@.len() && forall|i: int|
            0 <= i < r@.len() ==> (#[trigger] r@[i])@ == ring@[i]@,
{
    if zone_id@ != "logo"@ {
        assert forall|i: int| 0 <= i < r@.len() implies (#[trigger] r@[i])@ == ring@[i]@ by {
            assert(i == 0 || i == 1 || i == 2);
        }
    }
}

/// Every model can be a controller, be lit, be read and carry accessories. It can be
/// driven as a fan where it is no X-series model and is visible, and has a screen where
/// it is no X-series model.
pub proof fn models_have_their_uses(
    d: NZXTKraken,
    visible: bool,
    r: Vec<KrakenCapability>,
)
    requires
        call_ensures(NZXTKraken::capabilities, (&d, visible), r),
    ensures
        r@.contains(KrakenCapability::Controller),
        r@.contains(KrakenCapability::Rgb),
        r@.contains(KrakenCapability::Sensor),
        r@.contains(KrakenCapability::Chain),
        r@.contains(KrakenCapability::Fan) <==> !is_x_series(d.pid) && visible,
        r@.contains(KrakenCapability::Lcd) <==> !is_x_series(d.pid),
{
    assert(r@[0] == KrakenCapability::Controller);
    assert(r@[1] == KrakenCapability::Rgb);
    assert(r@[2] == KrakenCapability::Sensor);
    assert(r@[3] == KrakenCapability::Chain);
    if !is_x_series(d.pid) {
        assert(r@[r@.len() - 1] == KrakenCapability::Lcd);
        if visible {
            assert(r@[4] == KrakenCapability::Fan);
        }
    }
}

/// The one sensor shows the last reported temperature in tenths of a degree, under the
/// visibility that was last chosen for it; choices for other sensors do not matter.
pub proof fn chosen_visibilities_are_shown(
    d: &mut NZXTKraken,
    sensor_id: &str,
    state: VisibilityState,
    a: Vec<Sensor>,
    b: Vec<Sensor>,
)
    requires
        call_ensures(NZXTKraken::get_sensors, (&*old(d),), a),
        call_ensures(NZXTKraken::set_sensor_visibility, (d, sensor_id, state), ()),
        call_ensures(NZXTKraken::get_sensors, (&*final(d),), b),
    ensures
        a@.len() == 1 && b@.len() == 1,
        b@[0].id@ == old(d).id@ + "_liquid_temp"@,
        b@[0].name@ == "Liquid Temperature"@,
        b@[0].tenths == old(d).protocol.status.liquid_temp_tenths,
        b@[0].unit == SensorUnit::Celsius && b@[0].sensor_type == SensorType::Temperature,
        sensor_id@ == b@[0].id@ ==> b@[0].visibility == state,
        sensor_id@ != b@[0].id@ ==> b@[0].visibility == a@[0].visibility,
{
}

/// A new cooler shows its sensor, has no picture and no bucket, and reports nothing.
pub proof fn new_coolers_know_nothing(
    id: String,
    serial_number: Option<String>,
    vid: u16,
    pid: u16,
    d: NZXTKraken,
    s: Vec<Sensor>,
    spins: bool,
)
    requires
        call_ensures(NZXTKraken::new, (id, serial_number, vid, pid), d),
        call_ensures(NZXTKraken::get_sensors, (&d,), s),
        call_ensures(NZXTKraken::get_fan_controllable, (&d,), spins),
    ensures
        d.pid == pid && d.vid == vid && d.id == id && d.serial_number == serial_number,
        d.protocol.wire == KrakenWire::X3 <==> is_x_series(pid),
        s@[0].tenths == 0 && s@[0].visibility == VisibilityState::Visible,
        !spins,
        d.lcd.active_image is None && d.lcd.mode == LcdMode::Default,
        d.protocol.active_bucket is None && !d.protocol.polling_paused,
{
}

/// The fan counts as one that can be controlled as soon as it turns.
pub proof fn turning_fans_are_controlled(d: NZXTKraken, r: bool)
    requires
        call_ensures(NZXTKraken::get_fan_controllable, (&d,), r),
    ensures
        r <==> d.protocol.status.fan_rpm != 0,
{
}

/// A cooler is shown with the reported speed and duty of its pump, which can be driven
/// on every model but the X-series, then its sensor and its lights, then its screen
/// where it has one and its children where it has any.
pub proof fn coolers_are_shown_as_reported(
    d: NZXTKraken,
    children: Vec<WireDevice>,
    name: &'static str,
    r: WireDevice,
)
    requires
        call_ensures(NZXTKraken::serialize, (&d, children), r),
        call_ensures(NZXTKraken::model_name_for, (d.pid,), name),
    ensures
        r.id@ == d.id@ && r.name == "NZXT Kraken" && r.vendor == "NZXT" && r.model == name,
        r.device_type == DeviceType::Aio && r.connected,
        r.capabilities@[0] matches DeviceCapability::Pump(p) && p.rpm == d.protocol.status.pump_rpm
            && p.duty == d.protocol.status.pump_duty && (p.controllable <==> !is_x_series(d.pid)),
        r.capabilities@[1] matches DeviceCapability::Sensors(v) && v@.len() == 1 && v@[0].tenths
            == d.protocol.status.liquid_temp_tenths,
        r.capabilities@[2] is Rgb,
        !is_x_series(d.pid) ==> r.capabilities@[3] is Lcd,
        children@.len() > 0 ==> r.capabilities@.last() == DeviceCapability::Children(children),
        r.capabilities@.len() == 3 + (if is_x_series(d.pid) {
            0int
        } else {
            1
        }) + if children@.len() > 0 {
            1int
        } else {
            0
        },
{
}

/// The ids are told in four hex digits, with the model and, where there is a screen, its
/// size.
pub proof fn details_are_told(
    d: NZXTKraken,
    name: &'static str,
    size: (u32, u32),
    r: Vec<(&'static str, String)>,
)
    requires
        call_ensures(NZXTKraken::debug_info_extra, (&d,), r),
        call_ensures(NZXTKraken::model_name_for, (d.pid,), name),
        call_ensures(NZXTKraken::lcd_size_for, (d.pid,), size),
    ensures
        r@[0].0 == "vid" && r@[0].1@ == hex(d.vid as nat, 4),
        r@[1].0 == "pid" && r@[1].1@ == hex(d.pid as nat, 4),
        r@[2].0 == "model" && r@[2].1@ == name@,
        is_x_series(d.pid) ==> r@.len() == 3,
        !is_x_series(d.pid) ==> r@.len() == 4 && r@[3].0 == "lcd_resolution" && r@[3].1@ == decimal(
            size.0 as nat,
        ) + "x"@ + decimal(size.1 as nat),
{
}

/// The child is looked for among the fans, from the one after the last that was tried.
pub proof fn children_are_fans(
    accessories: &[AccessoryInfo],
    tried: usize,
    r: Option<usize>,
    s: Option<usize>,
)
    requires
        call_ensures(NZXTKraken::discover_children, (accessories, tried), r),
        call_ensures(next_candidate, (accessories, tried), s),
    ensures
        r == s,
{
}

/// Pump duties are sent as the pump's, fan duties as the fan's, and these only where
/// there is a fan header.
pub proof fn duties_go_to_pump_and_fan(
    d: NZXTKraken,
    duty: u8,
    r: Vec<u8>,
    f: Option<Vec<u8>>,
    pump: Vec<u8>,
    fan: Vec<u8>,
)
    requires
        call_ensures(NZXTKraken::set_duty, (&d, duty), r),
        call_ensures(NZXTKraken::set_fan_duty, (&d, duty), f),
        call_ensures(NzxtKrakenProtocol::write_pump_duty, (duty,), pump),
        call_ensures(NzxtKrakenProtocol::write_fan_duty, (duty,), fan),
    ensures
        r@ == pump@,
        f is Some <==> !is_x_series(d.pid),
        f matches Some(p) ==> p@ == fan@,
{
}

/// The one channel is `0`, with 96 LEDs.
pub proof fn the_header_is_channel_zero(r: Vec<ChannelDescriptor>)
    requires
        call_ensures(NZXTKraken::channels, (), r),
    ensures
        r@.len() == 1 && r@[0].channel_id@ == "0"@ && r@[0].display_name@
            == "External Accessory"@ && r@[0].max_leds == 96,
{
}

/// A file plays from a bucket exactly where it begins with `GIF87a` or `GIF89a`, whatever
/// comes behind.
pub proof fn animations_are_known_by_their_signature(data: &[u8], r: ImagePath)
    requires
        call_ensures(NZXTKraken::set_image, (data,), r),
    ensures
        r == ImagePath::Bucket <==> data@.len() >= 6 && (data@.take(6) == seq![
            0x47u8,
            0x49,
            0x46,
            0x38,
            0x37,
            0x61,
        ] || data@.take(6) == seq![0x47u8, 0x49, 0x46, 0x38, 0x39, 0x61]),
{
    if data@.len() >= 6 {
        let t = data@.take(6);
        assert(t[0] == data@[0] && t[1] == data@[1] && t[2] == data@[2] && t[3] == data@[3] && t[4]
            == data@[4] && t[5] == data@[5]);
        if is_gif(data@) {
            if data@[4] == 0x37 {
                assert(t =~= seq![0x47u8, 0x49, 0x46, 0x38, 0x37, 0x61]);
            } else {
                assert(t =~= seq![0x47u8, 0x49, 0x46, 0x38, 0x39, 0x61]);
            }
        }
    }
}

/// Turning the screen sends the quarter turns at the brightness that was read last;
/// setting the brightness sends it at the rotation that was read last. Both are
/// `30 02 01`, the brightness, two zeros, `01` and the turns.
pub proof fn screens_keep_what_is_not_set(
    d: &mut NZXTKraken,
    brightness: u8,
    rotation: u32,
    degrees: u32,
    level: u8,
    a: [u8; 8],
    b: [u8; 8],
)
    requires
        call_ensures(NZXTKraken::lcd_state_read, (d, brightness, rotation), ()),
        call_ensures(NZXTKraken::set_rotation, (&*final(d), degrees), a),
        call_ensures(NZXTKraken::set_brightness, (&*final(d), level), b),
        degrees < 360,
        rotation < 360,
    ensures
        a@[0] == 0x30 && a@[1] == 0x02 && a@[2] == 0x01,
        a@[3] == brightness && a@[4] == 0 && a@[5] == 0 && a@[6] == 0x01,
        90 * a@[7] <= degrees < 90 * (a@[7] + 1),
        b@[0] == 0x30 && b@[1] == 0x02 && b@[2] == 0x01,
        b@[3] == level && b@[4] == 0 && b@[5] == 0 && b@[6] == 0x01,
        90 * b@[7] <= rotation < 90 * (b@[7] + 1),
        final(d).lcd.mode == old(d).lcd.mode,
        final(d).lcd.active_image == old(d).lcd.active_image,
{
}

/// The built-in display comes back with `38 01 02 00`; then no picture and no bucket is
/// shown, and brightness and rotation stay.
pub proof fn resets_show_the_default(d: &mut NZXTKraken, r: [u8; 4])
    requires
        call_ensures(NZXTKraken::reset_to_default, (&*old(d),), r),
        call_ensures(NZXTKraken::reset_done, (d,), ()),
    ensures
        r@ == seq![0x38u8, 0x01, 0x02, 0x00],
        final(d).lcd.mode == LcdMode::Default,
        final(d).lcd.active_image is None,
        final(d).protocol.active_bucket is None,
        final(d).lcd.brightness == old(d).lcd.brightness,
        final(d).lcd.rotation == old(d).lcd.rotation,
        final(d).protocol.status == old(d).protocol.status,
{
}

/// A picture whose name ends in `.gif` is shown as an animation, any other as a still
/// picture; taking the name away leaves the mode.
pub proof fn names_tell_how_pictures_are_shown(
    d: &mut NZXTKraken,
    filename: Option<String>,
    stem: Seq<char>,
)
    requires
        call_ensures(NZXTKraken::set_active_image_filename, (d, filename), ()),
    ensures
        final(d).lcd.active_image == filename,
        filename is Some && filename->Some_0@ == stem + ".gif"@ ==> final(d).lcd.mode
            == LcdMode::Gif,
        filename is Some ==> (final(d).lcd.mode == LcdMode::Gif || final(d).lcd.mode
            == LcdMode::Image),
        filename is Some && final(d).lcd.mode == LcdMode::Gif ==> exists|s: Seq<char>|
            filename->Some_0@ == s + ".gif"@,
        filename is None ==> final(d).lcd.mode == old(d).lcd.mode,
        final(d).lcd.brightness == old(d).lcd.brightness,
        final(d).lcd.rotation == old(d).lcd.rotation,
{
    reveal_strlit(".gif");
    if let Some(name) = filename {
        let n = name@;
        if n == stem + ".gif"@ {
            assert(n.subrange(n.len() - 4, n.len() as int) =~= ".gif"@);
        }
        if ends_in_gif(n) {
            let s = n.take(n.len() - 4);
            assert(n =~= s + ".gif"@);
        }
    }
}

/// An active template is left to its engine; else the saved picture is shown, and without
/// one the screen is reset.
pub proof fn saved_screens_come_back(
    template_active: bool,
    active_image: Option<String>,
    r: RestorePlan,
)
    requires
        call_ensures(NZXTKraken::restore_state, (template_active, active_image), r),
    ensures
        r is Engine <==> template_active,
        r is Reset <==> !template_active && active_image is None,
        r matches RestorePlan::ShowImage(name) ==> active_image == Some(name),
{
}

} // verus!
