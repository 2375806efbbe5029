//! The older lighting feature: zones by location, effects by id with their parameters at
//! fixed places.

use crate::bytes::{be16, u16_be};
use crate::rgb::RgbColor;
use crate::text::same_text;
use vstd::prelude::*;

verus! {

/// The name of a zone's location.
pub open spec fn location_label(location: u16) -> &'static str {
    if location == 0x0001 {
        "Primary"
    } else if location == 0x0002 {
        "Logo"
    } else if location == 0x0003 {
        "Left Side"
    } else if location == 0x0004 {
        "Right Side"
    } else if location == 0x0005 {
        "Combined"
    } else if location == 0x0006 {
        "Primary 1"
    } else if location == 0x0007 {
        "Primary 2"
    } else if location == 0x0008 {
        "Primary 3"
    } else if location == 0x0009 {
        "Primary 4"
    } else if location == 0x000A {
        "Primary 5"
    } else if location == 0x000B {
        "Primary 6"
    } else {
        "Unknown"
    }
}

/// Names a zone's location.
pub fn color_led_location_name(location: u16) -> (r: &'static str)
    ensures
        r == location_label(location),
{
    match location {
        0x0001 => "Primary",
        0x0002 => "Logo",
        0x0003 => "Left Side",
        0x0004 => "Right Side",
        0x0005 => "Combined",
        0x0006 => "Primary 1",
        0x0007 => "Primary 2",
        0x0008 => "Primary 3",
        0x0009 => "Primary 4",
        0x000A => "Primary 5",
        0x000B => "Primary 6",
        _ => "Unknown",
    }
}

/// The effects: name and id.
pub const LED_EFFECTS: [(&'static str, u8); 12] = [
    ("Disabled", 0x00),
    ("Static", 0x01),
    ("Pulse", 0x02),
    ("Cycle", 0x03),
    ("Wave", 0x04),
    ("Boot", 0x08),
    ("Demo", 0x09),
    ("Breathe", 0x0A),
    ("Ripple", 0x0B),
    ("Decomposition", 0x0E),
    ("Signature1", 0x0F),
    ("Signature2", 0x10),
];

/// The parameters of the effects: effect id, name, place and size in bytes.
pub const LED_PARAMS: [(u8, &'static str, usize, usize); 20] = [
    (0x01, "color", 0, 3),
    (0x01, "ramp", 3, 1),
    (0x02, "color", 0, 3),
    (0x02, "speed", 3, 1),
    (0x03, "period", 5, 2),
    (0x03, "intensity", 7, 1),
    (0x04, "period", 6, 2),
    (0x04, "direction", 9, 1),
    (0x0A, "color", 0, 3),
    (0x0A, "period", 3, 2),
    (0x0A, "form", 5, 1),
    (0x0A, "intensity", 6, 1),
    (0x0B, "color", 0, 3),
    (0x0B, "period", 4, 2),
    (0x0E, "period", 6, 2),
    (0x0E, "intensity", 8, 1),
    (0x0F, "period", 5, 2),
    (0x0F, "intensity", 7, 1),
    (0x10, "period", 5, 2),
    (0x10, "intensity", 7, 1),
];

/// Bytes for the parameters of an effect.
pub const PARAM_BYTES: usize = 10;

/// The parameters of an effect: name, place and size.
#[derive(Debug)]
pub struct LedEffectLayout {
    pub params: Vec<(&'static str, usize, usize)>,
}

/// An effect.
#[derive(Debug)]
pub struct LedEffectDef {
    pub name: &'static str,
    pub id: u8,
    pub layout: LedEffectLayout,
}

/// The parameters of an effect among the first `n`.
pub open spec fn params_of(id: u8, n: nat) -> Seq<(&'static str, usize, usize)>
    decreases n,
{
    if n == 0 {
        Seq::empty()
    } else {
        let p = LED_PARAMS@[n - 1];
        let before = params_of(id, (n - 1) as nat);
        if p.0 == id {
            before.push((p.1, p.2, p.3))
        } else {
            before
        }
    }
}

/// Whether `d` is effect `e` of the table.
pub open spec fn is_effect(e: int, d: LedEffectDef) -> bool {
    &&& d.name == LED_EFFECTS@[e].0
    &&& d.id == LED_EFFECTS@[e].1
    &&& d.layout.params@ == params_of(LED_EFFECTS@[e].1, LED_PARAMS@.len())
}

/// The position of the first effect with an id, from `from` on.
pub open spec fn effect_with_id(id: u8, from: int) -> Option<int>
    decreases LED_EFFECTS@.len() - from,
{
    if from < 0 || from >= LED_EFFECTS@.len() {
        None
    } else if LED_EFFECTS@[from].1 == id {
        Some(from)
    } else {
        effect_with_id(id, from + 1)
    }
}

/// The position of the first effect with a name, from `from` on.
pub open spec fn effect_with_name(name: Seq<char>, from: int) -> Option<int>
    decreases LED_EFFECTS@.len() - from,
{
    if from < 0 || from >= LED_EFFECTS@.len() {
        None
    } else if LED_EFFECTS@[from].0@ == name {
        Some(from)
    } else {
        effect_with_name(name, from + 1)
    }
}

/// Effect `e` of the table.
fn effect_at(e: usize) -> (r: LedEffectDef)
    requires
        e < LED_EFFECTS@.len(),
    ensures
        is_effect(e as int, r),
{
    let id: u8 = LED_EFFECTS[e].1;
    let mut params: Vec<(&'static str, usize, usize)> = Vec::new();
    let mut i: usize = 0;
    while i < 20
        invariant
            i <= 20,
            params@ == params_of(id, i as nat),
        decreases 20 - i,
    {
        if LED_PARAMS[i].0 == id {
            params.push((LED_PARAMS[i].1, LED_PARAMS[i].2, LED_PARAMS[i].3));
        }
        i = i + 1;
    }
    LedEffectDef { name: LED_EFFECTS[e].0, id, layout: LedEffectLayout { params } }
}

/// Finds an effect by its id.
pub fn find_led_effect(id: u8) -> (r: Option<LedEffectDef>)
    ensures
        match (r, effect_with_id(id, 0)) {
            (Some(d), Some(e)) => is_effect(e, d),
            (None, None) => true,
            _ => false,
        },
{
    let mut i: usize = 0;
    while i < 12
        invariant
            i <= 12,
            effect_with_id(id, 0) == effect_with_id(id, i as int),
        decreases 12 - i,
    {
        if LED_EFFECTS[i].1 == id {
            return Some(effect_at(i));
        }
        i = i + 1;
    }
    None
}

/// Finds an effect by its name.
pub fn find_led_effect_by_name(name: &str) -> (r: Option<LedEffectDef>)
    ensures
        match (r, effect_with_name(name@, 0)) {
            (Some(d), Some(e)) => is_effect(e, d),
            (None, None) => true,
            _ => false,
        },
{
    let mut i: usize = 0;
    while i < 12
        invariant
            i <= 12,
            effect_with_name(name@, 0) == effect_with_name(name@, i as int),
        decreases 12 - i,
    {
        if same_text(LED_EFFECTS[i].0, name) {
            return Some(effect_at(i));
        }
        i = i + 1;
    }
    None
}

/// Reads the number of zones from a reply.
pub fn parse_color_led_zone_count(reply: &[u8]) -> (r: Option<u8>)
    ensures
        r == if reply@.len() < 5 {
            None
        } else {
            Some(reply@[0])
        },
{
    if reply.len() < 5 {
        return None;
    }
    Some(reply[0])
}

/// The zone in a reply: index, location and number of effects.
pub open spec fn zone_info_in(reply: Seq<u8>) -> Option<(u8, u16, u8)> {
    if reply.len() < 4 {
        None
    } else {
        Some((reply[0], be16(reply[1], reply[2]) as u16, reply[3]))
    }
}

/// Reads a zone from a reply.
pub fn parse_color_led_zone_info(reply: &[u8]) -> (r: Option<(u8, u16, u8)>)
    ensures
        r == zone_info_in(reply@),
{
    if reply.len() < 4 {
        return None;
    }
    Some((reply[0], u16_be(reply[1], reply[2]), reply[3]))
}

/// The effect in an entry of a zone's effect table.
pub open spec fn effect_entry_in(reply: Seq<u8>) -> Option<u16> {
    if reply.len() < 8 {
        None
    } else {
        Some(be16(reply[2], reply[3]) as u16)
    }
}

/// Reads an entry of a zone's effect table.
pub fn parse_color_led_effect_entry(reply: &[u8]) -> (r: Option<u16>)
    ensures
        r == effect_entry_in(reply@),
{
    if reply.len() < 8 {
        return None;
    }
    Some(u16_be(reply[2], reply[3]))
}

/// The block of a steady colour: zone, slot, then the colour in front of the other
/// parameters.
pub open spec fn led_static_block(zone_idx: u8, slot: u8, color: RgbColor) -> Seq<u8> {
    seq![
        zone_idx,
        slot,
        color.r,
        color.g,
        color.b,
        0u8,
        0u8,
        0u8,
        0u8,
        0u8,
        0u8,
        0u8,
    ]
}

/// Encodes a steady colour.
pub fn encode_color_led_set_effect_static(zone_idx: u8, slot: u8, color: RgbColor) -> (r: [u8; 12])
    ensures
        r@ == led_static_block(zone_idx, slot, color),
{
    let r: [u8; 12] = [zone_idx, slot, color.r, color.g, color.b, 0, 0, 0, 0, 0, 0, 0];
    proof {
        assert(r@ =~= led_static_block(zone_idx, slot, color));
    }
    r
}

/// A command for an effect slot: the slot, then the payload.
pub fn color_led_effect_command(_zone_idx: u8, effect_slot: u8, payload: &[u8]) -> (r: Vec<u8>)
    ensures
        r@ == seq![effect_slot] + payload@,
{
    let n: usize = payload.len();
    let mut cmd: Vec<u8> = vec![effect_slot];
    let mut i: usize = 0;
    while i < n
        invariant
            i <= n,
            n == payload@.len(),
            cmd@ =~= seq![effect_slot] + payload@.take(i as int),
        decreases n - i,
    {
        cmd.push(payload[i]);
        i = i + 1;
    }
    proof {
        assert(payload@.take(n as int) =~= payload@);
    }
    cmd
}

/// Every parameter lies within the bytes of its effect, and no two parameters of an effect
/// overlap.
pub proof fn parameters_do_not_overlap(i: int, j: int)
    requires
        0 <= i < j < LED_PARAMS@.len(),
    ensures
        LED_PARAMS@[i].2 + LED_PARAMS@[i].3 <= PARAM_BYTES,
        LED_PARAMS@[j].2 + LED_PARAMS@[j].3 <= PARAM_BYTES,
        LED_PARAMS@[i].0 == LED_PARAMS@[j].0 ==> LED_PARAMS@[i].2 + LED_PARAMS@[i].3
            <= LED_PARAMS@[j].2,
{
    assert forall|a: int, b: int| 0 <= a < b < 20 implies LED_PARAMS@[a].2 + LED_PARAMS@[a].3 <= 10
        && (#[trigger] LED_PARAMS@[a].0 == #[trigger] LED_PARAMS@[b].0 ==> LED_PARAMS@[a].2
        + LED_PARAMS@[a].3 <= LED_PARAMS@[b].2) by {}
    assert forall|b: int| 0 <= b < 20 implies #[trigger] LED_PARAMS@[b].2 + LED_PARAMS@[b].3
        <= 10 by {}
}

/// Zones are named after their location.
pub proof fn locations_have_their_names(location: u16, r: &'static str)
    requires
        call_ensures(color_led_location_name, (location,), r),
    ensures
        1 <= location <= 11 ==> r == seq![
            "Primary",
            "Logo",
            "Left Side",
            "Right Side",
            "Combined",
            "Primary 1",
            "Primary 2",
            "Primary 3",
            "Primary 4",
            "Primary 5",
            "Primary 6",
        ][location - 1],
        location == 0 || location > 11 ==> r == "Unknown",
{
}

/// The effects by id and name; no other id is one.
#[verifier::rlimit(40)]
pub proof fn effects_have_their_ids(id: u8, r: Option<LedEffectDef>)
    requires
        call_ensures(find_led_effect, (id,), r),
    ensures
        r is Some <==> id <= 4 || 8 <= id <= 0x0B || 0x0E <= id <= 0x10,
        r matches Some(e) ==> e.id == id,
        id == 0x00 ==> r->Some_0.name == "Disabled",
        id == 0x01 ==> r->Some_0.name == "Static",
        id == 0x02 ==> r->Some_0.name == "Pulse",
        id == 0x03 ==> r->Some_0.name == "Cycle",
        id == 0x04 ==> r->Some_0.name == "Wave",
        id == 0x08 ==> r->Some_0.name == "Boot",
        id == 0x09 ==> r->Some_0.name == "Demo",
        id == 0x0A ==> r->Some_0.name == "Breathe",
        id == 0x0B ==> r->Some_0.name == "Ripple",
        id == 0x0E ==> r->Some_0.name == "Decomposition",
        id == 0x0F ==> r->Some_0.name == "Signature1",
        id == 0x10 ==> r->Some_0.name == "Signature2",
{
    reveal_with_fuel(effect_with_id, 14);
    let t = LED_EFFECTS;
    assert(t@.len() == 12);
    assert(t@[0].1 == 0x00 && t@[1].1 == 0x01 && t@[2].1 == 0x02 && t@[3].1 == 0x03 && t@[4].1
        == 0x04 && t@[5].1 == 0x08 && t@[6].1 == 0x09 && t@[7].1 == 0x0A && t@[8].1 == 0x0B
        && t@[9].1 == 0x0E && t@[10].1 == 0x0F && t@[11].1 == 0x10);
    assert(t@[0].0 == "Disabled" && t@[1].0 == "Static" && t@[2].0 == "Pulse" && t@[3].0 == "Cycle"
        && t@[4].0 == "Wave" && t@[5].0 == "Boot" && t@[6].0 == "Demo" && t@[7].0 == "Breathe"
        && t@[8].0 == "Ripple" && t@[9].0 == "Decomposition" && t@[10].0 == "Signature1"
        && t@[11].0 == "Signature2");
}

/// An effect that is found by its name has that name.
pub proof fn effects_are_found_by_name(name: &str, r: Option<LedEffectDef>)
    requires
        call_ensures(find_led_effect_by_name, (name,), r),
    ensures
        r matches Some(e) ==> e.name@ == name@ && e.layout.params@ == params_of(e.id, 20),
        r is None ==> forall|e: int| 0 <= e < 12 ==> (#[trigger] LED_EFFECTS@[e]).0@ != name@,
{
    lemma_named(name@, 0);
    let t = LED_PARAMS;
    assert(t@.len() == 20);
    let u = LED_EFFECTS;
    assert(u@.len() == 12);
}

/// The first effect with a name from a position on.
proof fn lemma_named(name: Seq<char>, from: int)
    requires
        0 <= from,
    ensures
        effect_with_name(name, from) matches Some(e) ==> from <= e < LED_EFFECTS@.len()
            && LED_EFFECTS@[e].0@ == name,
        effect_with_name(name, from) is None ==> forall|e: int|
            from <= e < LED_EFFECTS@.len() ==> (#[trigger] LED_EFFECTS@[e]).0@ != name,
    decreases LED_EFFECTS@.len() - from,
{
    if from < LED_EFFECTS@.len() && LED_EFFECTS@[from].0@ != name {
        lemma_named(name, from + 1);
    }
}

/// Where the parameters of the effects stand, with their sizes in bytes.
#[verifier::rlimit(60)]
pub proof fn parameters_have_their_places()
    ensures
        params_of(0x01, 20) == seq![("color", 0usize, 3usize), ("ramp", 3usize, 1usize)],
        params_of(0x02, 20) == seq![("color", 0usize, 3usize), ("speed", 3usize, 1usize)],
        params_of(0x03, 20) == seq![("period", 5usize, 2usize), ("intensity", 7usize, 1usize)],
        params_of(0x04, 20) == seq![("period", 6usize, 2usize), ("direction", 9usize, 1usize)],
        params_of(0x0A, 20) == seq![
            ("color", 0usize, 3usize),
            ("period", 3usize, 2usize),
            ("form", 5usize, 1usize),
            ("intensity", 6usize, 1usize),
        ],
        params_of(0x0B, 20) == seq![("color", 0usize, 3usize), ("period", 4usize, 2usize)],
        params_of(0x0E, 20) == seq![("period", 6usize, 2usize), ("intensity", 8usize, 1usize)],
        params_of(0x0F, 20) == seq![("period", 5usize, 2usize), ("intensity", 7usize, 1usize)],
        params_of(0x10, 20) == seq![("period", 5usize, 2usize), ("intensity", 7usize, 1usize)],
{
    reveal_with_fuel(params_of, 21);
    let t = LED_PARAMS;
    assert(t@[0] == (0x01u8, "color", 0usize, 3usize) && t@[1] == (0x01u8, "ramp", 3usize, 1usize)
        && t@[2] == (0x02u8, "color", 0usize, 3usize) && t@[3] == (0x02u8, "speed", 3usize, 1usize)
        && t@[4] == (0x03u8, "period", 5usize, 2usize) && t@[5] == (
        0x03u8,
        "intensity",
        7usize,
        1usize,
    ) && t@[6] == (0x04u8, "period", 6usize, 2usize) && t@[7] == (
        0x04u8,
        "direction",
        9usize,
        1usize,
    ) && t@[8] == (0x0Au8, "color", 0usize, 3usize) && t@[9] == (0x0Au8, "period", 3usize, 2usize)
        && t@[10] == (0x0Au8, "form", 5usize, 1usize) && t@[11] == (
        0x0Au8,
        "intensity",
        6usize,
        1usize,
    ) && t@[12] == (0x0Bu8, "color", 0usize, 3usize) && t@[13] == (
        0x0Bu8,
        "period",
        4usize,
        2usize,
    ) && t@[14] == (0x0Eu8, "period", 6usize, 2usize) && t@[15] == (
        0x0Eu8,
        "intensity",
        8usize,
        1usize,
    ) && t@[16] == (0x0Fu8, "period", 5usize, 2usize) && t@[17] == (
        0x0Fu8,
        "intensity",
        7usize,
        1usize,
    ) && t@[18] == (0x10u8, "period", 5usize, 2usize) && t@[19] == (
        0x10u8,
        "intensity",
        7usize,
        1usize,
    ));
}

/// Zones and effects are read from their bytes, pairs high byte first.
pub proof fn zones_are_read(
    reply: &[u8],
    count: Option<u8>,
    zone: Option<(u8, u16, u8)>,
    effect: Option<u16>,
)
    requires
        call_ensures(parse_color_led_zone_count, (reply,), count),
        call_ensures(parse_color_led_zone_info, (reply,), zone),
        call_ensures(parse_color_led_effect_entry, (reply,), effect),
    ensures
        count is Some <==> reply@.len() >= 5,
        count is Some ==> count->Some_0 == reply@[0],
        zone is Some <==> reply@.len() >= 4,
        zone is Some ==> zone->Some_0.0 == reply@[0] && zone->Some_0.1 == 256 * reply@[1] + reply@[2]
            && zone->Some_0.2 == reply@[3],
        effect is Some <==> reply@.len() >= 8,
        effect is Some ==> effect->Some_0 == 256 * reply@[2] + reply@[3],
{
}

/// A steady colour stands behind zone and slot, and zeros behind it; a command for a slot is
/// the slot and its payload.
pub proof fn steady_blocks_hold_zone_slot_and_color(
    zone: u8,
    slot: u8,
    color: RgbColor,
    payload: &[u8],
    r: [u8; 12],
    command: Vec<u8>,
)
    requires
        call_ensures(encode_color_led_set_effect_static, (zone, slot, color), r),
        call_ensures(color_led_effect_command, (zone, slot, payload), command),
    ensures
        r@ == seq![zone, slot, color.r, color.g, color.b, 0u8, 0, 0, 0, 0, 0, 0],
        command@.len() == 1 + payload@.len(),
        command@[0] == slot,
        command@.skip(1) == payload@,
{
    assert(command@.skip(1) =~= payload@);
}

} // verus!
