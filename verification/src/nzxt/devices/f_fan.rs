//! NZXT F-series fans, attached to a hub or a Kraken.

use crate::nzxt::protocols::nzxt::AccessoryInfo;
use crate::rgb::{
    find_zone, led_frame, per_led_frame, solid_frame, zone_named, RgbColor, RgbDescriptor, RgbState,
    RgbZone, ZoneLeds, ZoneTopology,
};
use crate::text::{decimal, owned, push_decimal, same_text};
use crate::types::{DeviceCapability, DeviceType, FanStatus, WireDevice};
use vstd::prelude::*;

verus! {

/// Why a request was refused.
#[derive(Debug, Clone, Copy, PartialEq, Eq, Structural)]
pub enum FanError {
    UnknownZone,
}

/// Whether an accessory id is that of an F-series fan.
pub open spec fn is_f_fan(id: u8) -> bool {
    id == 0x13 || id == 0x14 || id == 0x17 || id == 0x18 || id == 0x1B || id == 0x1C || id == 0x1D
        || id == 0x1E || id == 0x1F
}

/// Whether an accessory id is that of an F-series fan.
pub fn recognizes(id: u8) -> (r: bool)
    ensures
        r == is_f_fan(id),
{
    id == 0x13 || id == 0x14 || id == 0x17 || id == 0x18 || id == 0x1B || id == 0x1C || id == 0x1D
        || id == 0x1E || id == 0x1F
}

/// The first accessory at or after `from` that is an F-series fan.
pub open spec fn candidate_from(list: Seq<AccessoryInfo>, from: nat) -> Option<nat>
    decreases list.len() - from,
{
    if from >= list.len() {
        None
    } else if is_f_fan(list[from as int].accessory_id) {
        Some(from)
    } else {
        candidate_from(list, from + 1)
    }
}

/// The first accessory at or after `from` that is an F-series fan.
pub fn next_candidate(list: &[AccessoryInfo], from: usize) -> (r: Option<usize>)
    ensures
        match candidate_from(list@, from as nat) {
            Some(i) => r is Some && r->Some_0 == i && i < list@.len(),
            None => r is None,
        },
{
    let mut i: usize = from;
    while i < list.len()
        invariant
            from <= i,
            candidate_from(list@, i as nat) == candidate_from(list@, from as nat),
        decreases list@.len() - i,
    {
        if recognizes(list[i].accessory_id) {
            return Some(i);
        }
        i = i + 1;
    }
    None
}

/// Model name, number of fans and LEDs per fan of an accessory id.
pub open spec fn fan_info(id: u8) -> (&'static str, u8, usize) {
    if id == 0x13 {
        ("F120 RGB", 1, 8)
    } else if id == 0x14 {
        ("F140 RGB", 1, 8)
    } else if id == 0x17 || id == 0x18 {
        ("F140 RGB Core", 1, 8)
    } else if id == 0x1B || id == 0x1C {
        ("F240 RGB Core", 2, 8)
    } else if id == 0x1D || id == 0x1E {
        ("F360 RGB Core", 3, 8)
    } else if id == 0x1F {
        ("F420 RGB Core", 3, 8)
    } else {
        ("NZXT F Fan", 1, 8)
    }
}

/// A fan, or a frame of fans, on one channel.
#[derive(Debug)]
pub struct NZXTFFan {
    pub channel_id: u8,
    pub accessory_id: u8,
    pub id: String,
    pub rgb_descriptor: RgbDescriptor,
    /// What the device was asked to show last.
    pub rgb: Option<RgbState>,
}

/// The ring zone of `fan_count` fans.
pub open spec fn ring_zone(fan_count: u8, leds_per_fan: usize) -> RgbZone {
    RgbZone {
        id: "ring",
        name: "Ring",
        topology: if fan_count == 1 {
            ZoneTopology::Ring
        } else {
            ZoneTopology::Rings { count: fan_count }
        },
        led_count: (fan_count * leds_per_fan) as u32,
    }
}

/// The colours that a state asks a zone of `count` LEDs to show, if any.
pub open spec fn ring_colors(state: RgbState, count: nat) -> Option<Seq<RgbColor>> {
    match state {
        RgbState::Static { color } => Some(Seq::new(count, |i: int| color)),
        RgbState::PerLed { zones } => match zone_named(zones@, "ring"@) {
            Some(leds) => Some(led_frame(leds, count)),
            None => None,
        },
        _ => None,
    }
}

impl NZXTFFan {
    /// The fan of accessory `accessory_id` on channel `channel_id` of the hub `hub_id`.
    pub fn new(channel_id: u8, accessory_id: u8, hub_id: &str) -> (r: Self)
        ensures
            r.channel_id == channel_id,
            r.accessory_id == accessory_id,
            r.id@ == "nzxt_f_fan_"@ + hub_id@ + "_"@ + decimal(channel_id as nat),
            r.rgb_descriptor.zones@ == seq![
                ring_zone(fan_info(accessory_id).1, fan_info(accessory_id).2),
            ],
            r.rgb_descriptor.native_effects@.len() == 0,
            r.rgb is None,
    {
        let (_, fan_count, leds_per_fan) = Self::device_info_for(accessory_id);
        let mut id = owned("nzxt_f_fan_");
        id.append(hub_id);
        id.append("_");
        push_decimal(&mut id, channel_id as u64);
        NZXTFFan {
            channel_id,
            accessory_id,
            id,
            rgb_descriptor: Self::build_descriptor(fan_count, leds_per_fan),
            rgb: None,
        }
    }

    /// Model name, number of fans and LEDs per fan of an accessory id.
    pub fn device_info_for(accessory_id: u8) -> (r: (&'static str, u8, usize))
        ensures
            r == fan_info(accessory_id),
            1 <= r.1 <= 3,
            r.2 == 8,
    {
        match accessory_id {
            0x13 => ("F120 RGB", 1, 8),
            0x14 => ("F140 RGB", 1, 8),
            0x17 => ("F140 RGB Core", 1, 8),
            0x18 => ("F140 RGB Core", 1, 8),
            0x1B => ("F240 RGB Core", 2, 8),
            0x1C => ("F240 RGB Core", 2, 8),
            0x1D => ("F360 RGB Core", 3, 8),
            0x1E => ("F360 RGB Core", 3, 8),
            0x1F => ("F420 RGB Core", 3, 8),
            _ => ("NZXT F Fan", 1, 8),
        }
    }

    /// Model name, number of fans and LEDs per fan.
    pub fn device_info(&self) -> (r: (&'static str, u8, usize))
        ensures
            r == fan_info(self.accessory_id),
    {
        Self::device_info_for(self.accessory_id)
    }

    /// One ring zone over all fans.
    pub fn build_descriptor(fan_count: u8, leds_per_fan: usize) -> (r: RgbDescriptor)
        requires
            fan_count * leds_per_fan <= u32::MAX,
            leds_per_fan <= u32::MAX,
        ensures
            r.zones@ == seq![ring_zone(fan_count, leds_per_fan)],
            r.native_effects@.len() == 0,
    {
        let topology = if fan_count == 1 {
            ZoneTopology::Ring
        } else {
            ZoneTopology::Rings { count: fan_count }
        };
        let total: u32 = (fan_count as u32) * (leds_per_fan as u32);
        let zones: Vec<RgbZone> = vec![RgbZone { id: "ring", name: "Ring", topology, led_count: total }];
        proof {
            assert(zones@ =~= seq![ring_zone(fan_count, leds_per_fan)]);
        }
        RgbDescriptor { zones, native_effects: Vec::new() }
    }

    /// The colours that a state asks the fan to show; effect states ask for none, because
    /// the hubs compose user-driven colours only. Colours given per LED are still subject
    /// to the zone's transform.
    pub fn apply_state(&self, state: &RgbState) -> (r: Option<Vec<RgbColor>>)
        requires
            self.rgb_descriptor.zones@.len() > 0,
        ensures
            match ring_colors(*state, self.rgb_descriptor.zones@[0].led_count as nat) {
                Some(c) => r is Some && r->Some_0@ == c,
                None => r is None,
            },
    {
        let led_count: usize = self.rgb_descriptor.zones[0].led_count as usize;
        match state {
            RgbState::Static { color } => Some(solid_frame(*color, led_count)),
            RgbState::PerLed { zones } => match find_zone(zones, "ring") {
                Some(leds) => Some(per_led_frame(leds, led_count)),
                None => None,
            },
            _ => None,
        }
    }

    /// Remembers the state that the device shows now.
    pub fn state_applied(&mut self, state: RgbState)
        ensures
            *final(self) == (NZXTFFan { rgb: Some(state), ..*old(self) }),
    {
        self.rgb = Some(state);
    }

    /// The state that was applied last; none before the first.
    pub fn current_state(&self) -> (r: Option<&RgbState>)
        ensures
            match self.rgb {
                Some(state) => r == Some(&state),
                None => r is None,
            },
    {
        match &self.rgb {
            Some(state) => Some(state),
            None => None,
        }
    }

    /// Checks the zone of an engine frame.
    pub fn write_frame(&self, zone_id: &str) -> (r: Result<(), FanError>)
        ensures
            r == if zone_id@ == "ring"@ {
                Ok::<(), FanError>(())
            } else {
                Err(FanError::UnknownZone)
            },
    {
        if same_text(zone_id, "ring") {
            Ok(())
        } else {
            Err(FanError::UnknownZone)
        }
    }

    /// The fan as shown, with what its hub knows about it.
    pub fn serialize(self, rpm: u32, duty: u8, controllable: bool) -> (r: WireDevice)
        ensures
            r.id@ == self.id@,
            r.name == fan_info(self.accessory_id).0,
            r.vendor == "NZXT",
            r.model == fan_info(self.accessory_id).0,
            r.device_type == DeviceType::Fan,
            r.connected,
            r.serial_number is None,
            r.capabilities@ == seq![
                DeviceCapability::Fan(
                    FanStatus { channel: self.channel_id, rpm, duty, controllable },
                ),
                DeviceCapability::Rgb(self.rgb_descriptor),
            ],
            r.control_layout@.len() == 0,
    {
        let name: &'static str = self.device_info().0;
        WireDevice {
            id: self.id,
            name,
            vendor: "NZXT",
            model: name,
            device_type: DeviceType::Fan,
            connected: true,
            serial_number: None,
            capabilities: vec![
                DeviceCapability::Fan(
                    FanStatus { channel: self.channel_id, rpm, duty, controllable },
                ),
                DeviceCapability::Rgb(self.rgb_descriptor),
            ],
            control_layout: Vec::new(),
        }
    }
}

/// Every F-series accessory has eight LEDs per fan and between one and three fans.
pub proof fn fans_have_eight_leds_each(id: u8)
    ensures
        1 <= fan_info(id).1 <= 3,
        ring_zone(fan_info(id).1, fan_info(id).2).led_count == 8 * fan_info(id).1,
{
}

/// Fans are known by the ids 19, 20, 23, 24 and 27 to 31.
pub proof fn fans_are_known_by_their_ids(id: u8, r: bool)
    requires
        call_ensures(recognizes, (id,), r),
    ensures
        r <==> id == 19 || id == 20 || id == 23 || id == 24 || 27 <= id <= 31,
{
}

/// The next candidate is a fan, and no accessory between the starting point and it is
/// one; where there is no candidate, none is from the starting point on.
pub proof fn candidates_come_in_order(
    list: &[AccessoryInfo],
    from: usize,
    r: Option<usize>,
    i: int,
    fan: bool,
)
    requires
        call_ensures(next_candidate, (list, from), r),
        from <= i < list@.len(),
        call_ensures(recognizes, (list@[i].accessory_id,), fan),
    ensures
        r is None ==> !fan,
        r matches Some(c) ==> from <= c < list@.len(),
        r is Some && i < r->Some_0 ==> !fan,
        r is Some && i == r->Some_0 ==> fan,
{
    lemma_candidate(list@, from as nat, i);
}

/// What the candidate says of accessory `i`.
proof fn lemma_candidate(list: Seq<AccessoryInfo>, from: nat, i: int)
    requires
        from <= i < list.len(),
    ensures
        candidate_from(list, from) is None ==> !is_f_fan(list[i].accessory_id),
        candidate_from(list, from) matches Some(c) ==> from <= c < list.len(),
        candidate_from(list, from) is Some && i < candidate_from(list, from)->Some_0 ==> !is_f_fan(
            list[i].accessory_id,
        ),
        candidate_from(list, from) is Some && i == candidate_from(list, from)->Some_0 ==> is_f_fan(
            list[i].accessory_id,
        ),
    decreases list.len() - from,
{
    if !is_f_fan(list[from as int].accessory_id) && from + 1 < list.len() {
        lemma_candidate(
            list,
            from + 1,
            if i > from {
                i
            } else {
                i + 1
            },
        );
    } else if !is_f_fan(list[from as int].accessory_id) {
        assert(candidate_from(list, from + 1) is None);
    }
}

/// Single fans are named for their size; two come in one frame as F240, three as F360 or
/// F420. Every fan has eight LEDs.
pub proof fn fans_have_their_models(d: NZXTFFan, id: u8, r: (&'static str, u8, usize))
    requires
        d.accessory_id == id,
        call_ensures(NZXTFFan::device_info, (&d,), r),
    ensures
        id == 19 ==> r == ("F120 RGB", 1u8, 8usize),
        id == 20 ==> r == ("F140 RGB", 1u8, 8usize),
        id == 23 || id == 24 ==> r == ("F140 RGB Core", 1u8, 8usize),
        id == 27 || id == 28 ==> r == ("F240 RGB Core", 2u8, 8usize),
        id == 29 || id == 30 ==> r == ("F360 RGB Core", 3u8, 8usize),
        id == 31 ==> r == ("F420 RGB Core", 3u8, 8usize),
        id < 19 || id == 21 || id == 22 || 25 <= id <= 26 || id > 31 ==> r == (
            "NZXT F Fan",
            1u8,
            8usize,
        ),
{
}

/// What is known of an id is what is known of a fan that has it.
pub proof fn models_follow_the_id(
    d: NZXTFFan,
    r: (&'static str, u8, usize),
    s: (&'static str, u8, usize),
)
    requires
        call_ensures(NZXTFFan::device_info, (&d,), r),
        call_ensures(NZXTFFan::device_info_for, (d.accessory_id,), s),
    ensures
        r == s,
{
}

/// A new fan keeps the channel and the id it was made with, shows nothing yet, and has
/// one zone over all its fans, a ring for one and as many rings as fans for more.
pub proof fn new_fans_have_one_zone(
    channel_id: u8,
    accessory_id: u8,
    hub_id: &str,
    d: NZXTFFan,
    info: (&'static str, u8, usize),
)
    requires
        call_ensures(NZXTFFan::new, (channel_id, accessory_id, hub_id), d),
        call_ensures(NZXTFFan::device_info, (&d,), info),
    ensures
        d.channel_id == channel_id && d.accessory_id == accessory_id,
        d.id@ == "nzxt_f_fan_"@ + hub_id@ + "_"@ + decimal(channel_id as nat),
        d.rgb is None,
        d.rgb_descriptor.native_effects@.len() == 0,
        d.rgb_descriptor.zones@.len() == 1,
        d.rgb_descriptor.zones@[0].id == "ring" && d.rgb_descriptor.zones@[0].name == "Ring",
        d.rgb_descriptor.zones@[0].led_count == 8 * info.1,
        info.1 == 1 ==> d.rgb_descriptor.zones@[0].topology == ZoneTopology::Ring,
        info.1 > 1 ==> d.rgb_descriptor.zones@[0].topology == (ZoneTopology::Rings {
            count: info.1,
        }),
{
}

/// The zone of a descriptor has as many LEDs as all the fans together.
pub proof fn descriptors_count_every_led(
    fan_count: u8,
    leds_per_fan: usize,
    r: RgbDescriptor,
)
    requires
        call_ensures(NZXTFFan::build_descriptor, (fan_count, leds_per_fan), r),
        fan_count * leds_per_fan <= u32::MAX,
    ensures
        r.zones@.len() == 1,
        r.zones@[0].id == "ring" && r.zones@[0].name == "Ring",
        r.zones@[0].led_count == fan_count * leds_per_fan,
        fan_count == 1 ==> r.zones@[0].topology == ZoneTopology::Ring,
        fan_count != 1 ==> r.zones@[0].topology == (ZoneTopology::Rings { count: fan_count }),
{
}

/// One colour for all goes to every LED; colours by LED are those of the zone `ring`, and
/// without that zone, as for every other state, nothing is shown.
pub proof fn states_fill_the_ring(
    d: NZXTFFan,
    state: RgbState,
    r: Option<Vec<RgbColor>>,
    zones: &[ZoneLeds],
    zone: Option<&Vec<(u32, RgbColor)>>,
    leds: &[(u32, RgbColor)],
    frame: Vec<RgbColor>,
    i: int,
)
    requires
        d.rgb_descriptor.zones@.len() > 0,
        call_ensures(NZXTFFan::apply_state, (&d, &state), r),
        state matches RgbState::PerLed { zones: z } ==> z@ == zones@,
        call_ensures(find_zone, (zones, "ring"), zone),
        zone matches Some(z) ==> z@ == leds@,
        call_ensures(
            per_led_frame,
            (leds, d.rgb_descriptor.zones@[0].led_count as usize),
            frame,
        ),
        0 <= i < d.rgb_descriptor.zones@[0].led_count,
    ensures
        state matches RgbState::Static { color } ==> r is Some && r->Some_0@.len()
            == d.rgb_descriptor.zones@[0].led_count && r->Some_0@[i] == color,
        state is PerLed ==> (r is Some <==> zone is Some),
        state is PerLed && r is Some ==> r->Some_0@ == frame@,
        !(state is Static) && !(state is PerLed) ==> r is None,
{
}

/// The state that was applied last is the one that is told.
pub proof fn applied_states_are_told(d: &mut NZXTFFan, state: RgbState, r: Option<&RgbState>)
    requires
        call_ensures(NZXTFFan::state_applied, (d, state), ()),
        call_ensures(NZXTFFan::current_state, (&*final(d),), r),
    ensures
        r == Some(&state),
        final(d).channel_id == old(d).channel_id,
        final(d).accessory_id == old(d).accessory_id,
        final(d).id == old(d).id,
{
}

/// Frames are taken for the ring and for nothing else.
pub proof fn frames_are_for_the_ring(d: NZXTFFan, zone_id: &str, r: Result<(), FanError>)
    requires
        call_ensures(NZXTFFan::write_frame, (&d, zone_id), r),
    ensures
        r is Ok <==> zone_id@ == "ring"@,
{
}

/// A fan is shown with the speed, the duty and the control that its hub reported, and its
/// model both as name and as model.
pub proof fn fans_are_shown_as_reported(
    d: NZXTFFan,
    rpm: u32,
    duty: u8,
    controllable: bool,
    info: (&'static str, u8, usize),
    r: WireDevice,
)
    requires
        call_ensures(NZXTFFan::serialize, (d, rpm, duty, controllable), r),
        call_ensures(NZXTFFan::device_info, (&d,), info),
    ensures
        r.id@ == d.id@ && r.name == info.0 && r.model == info.0 && r.vendor == "NZXT",
        r.device_type == DeviceType::Fan && r.connected,
        r.capabilities@.len() == 2,
        r.capabilities@[0] matches DeviceCapability::Fan(s) && s.channel == d.channel_id && s.rpm
            == rpm && s.duty == duty && s.controllable == controllable,
        r.capabilities@[1] == DeviceCapability::Rgb(d.rgb_descriptor),
{
}

} // verus!
