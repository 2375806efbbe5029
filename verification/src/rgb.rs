//! Colours, lighting states and the descriptions of lighting zones and effects.

use crate::text::same_text;
use vstd::prelude::*;

verus! {

/// A 24-bit colour.
#[derive(Debug, Clone, Copy, PartialEq, Eq, Structural)]
pub struct RgbColor {
    pub r: u8,
    pub g: u8,
    pub b: u8,
}

/// Black.
pub open spec fn black() -> RgbColor {
    RgbColor { r: 0, g: 0, b: 0 }
}

/// The colour black.
pub fn no_light() -> (c: RgbColor)
    ensures
        c == black(),
{
    RgbColor { r: 0, g: 0, b: 0 }
}

/// The value of an effect parameter. Numbers are held in thousandths.
#[derive(Debug)]
pub enum EffectParamValue {
    Number(i64),
    Color(RgbColor),
    Text(String),
}

/// A named effect parameter.
#[derive(Debug)]
pub struct EffectParam {
    pub name: String,
    pub value: EffectParamValue,
}

/// The colours given to some LEDs of one zone, by LED index; where an index occurs more
/// than once the last entry counts.
#[derive(Debug)]
pub struct ZoneLeds {
    pub zone: String,
    pub leds: Vec<(u32, RgbColor)>,
}

/// What a device should show.
#[derive(Debug)]
pub enum RgbState {
    /// One colour everywhere.
    Static { color: RgbColor },
    /// A colour per LED.
    PerLed { zones: Vec<ZoneLeds> },
    /// An effect that the firmware renders.
    NativeEffect { id: String, params: Vec<EffectParam> },
    /// Frames come from the effect engine.
    Engine,
    /// Frames come from a directly attached effect.
    DirectEffect,
}

/// What values an effect parameter takes. Numbers are held in thousandths.
#[derive(Debug)]
pub enum ParamKind {
    Range { min: i64, max: i64, step: i64 },
    Color,
    Enum { options: Vec<&'static str> },
}

/// An editable effect parameter.
#[derive(Debug)]
pub struct EffectParamDescriptor {
    pub id: &'static str,
    pub label: &'static str,
    pub kind: ParamKind,
    pub default: EffectParamValue,
}

/// An effect that the firmware renders.
#[derive(Debug)]
pub struct NativeEffect {
    pub id: &'static str,
    pub name: &'static str,
    pub params: Vec<EffectParamDescriptor>,
}

/// How the LEDs of a zone are arranged.
#[derive(Debug, Clone, Copy, PartialEq, Eq, Structural)]
pub enum ZoneTopology {
    Linear,
    Ring,
    Rings { count: u8 },
    Grid,
}

/// One lighting zone.
#[derive(Debug, Clone, Copy)]
pub struct RgbZone {
    pub id: &'static str,
    pub name: &'static str,
    pub topology: ZoneTopology,
    pub led_count: u32,
}

/// The zones and firmware effects of a device.
#[derive(Debug)]
pub struct RgbDescriptor {
    pub zones: Vec<RgbZone>,
    pub native_effects: Vec<NativeEffect>,
}

/// The value of the first parameter called `name`.
pub open spec fn param_named(params: Seq<EffectParam>, name: Seq<char>) -> Option<EffectParamValue>
    decreases params.len(),
{
    if params.len() == 0 {
        None
    } else if params[0].name@ == name {
        Some(params[0].value)
    } else {
        param_named(params.drop_first(), name)
    }
}

/// The value of the first parameter called `name`.
pub fn find_param<'a>(params: &'a [EffectParam], name: &str) -> (r: Option<&'a EffectParamValue>)
    ensures
        match param_named(params@, name@) {
            Some(v) => r == Some(&v),
            None => r is None,
        },
{
    let mut i: usize = 0;
    proof {
        assert(params@.skip(0) =~= params@);
    }
    while i < params.len()
        invariant
            i <= params@.len(),
            param_named(params@.skip(i as int), name@) == param_named(params@, name@),
        decreases params@.len() - i,
    {
        if same_text(params[i].name.as_str(), name) {
            return Some(&params[i].value);
        }
        proof {
            assert(params@.skip(i as int).drop_first() =~= params@.skip(i + 1));
        }
        i = i + 1;
    }
    None
}

/// The colours given for the first zone called `zone`.
pub open spec fn zone_named(zones: Seq<ZoneLeds>, zone: Seq<char>) -> Option<Seq<(u32, RgbColor)>>
    decreases zones.len(),
{
    if zones.len() == 0 {
        None
    } else if zones[0].zone@ == zone {
        Some(zones[0].leds@)
    } else {
        zone_named(zones.drop_first(), zone)
    }
}

/// The colours given for the first zone called `zone`.
pub fn find_zone<'a>(zones: &'a [ZoneLeds], zone: &str) -> (r: Option<&'a Vec<(u32, RgbColor)>>)
    ensures
        match zone_named(zones@, zone@) {
            Some(leds) => r is Some && r->Some_0@ == leds,
            None => r is None,
        },
{
    let mut i: usize = 0;
    proof {
        assert(zones@.skip(0) =~= zones@);
    }
    while i < zones.len()
        invariant
            i <= zones@.len(),
            zone_named(zones@.skip(i as int), zone@) == zone_named(zones@, zone@),
        decreases zones@.len() - i,
    {
        if same_text(zones[i].zone.as_str(), zone) {
            return Some(&zones[i].leds);
        }
        proof {
            assert(zones@.skip(i as int).drop_first() =~= zones@.skip(i + 1));
        }
        i = i + 1;
    }
    None
}

/// The colour given to LED `i`, or black.
pub open spec fn led_color(leds: Seq<(u32, RgbColor)>, i: int) -> RgbColor
    decreases leds.len(),
{
    if leds.len() == 0 {
        black()
    } else if leds.last().0 == i {
        leds.last().1
    } else {
        led_color(leds.drop_last(), i)
    }
}

/// The full frame of `count` LEDs that `leds` describes.
pub open spec fn led_frame(leds: Seq<(u32, RgbColor)>, count: nat) -> Seq<RgbColor> {
    Seq::new(count, |i: int| led_color(leds, i))
}

/// Expands a sparse colour list to a full frame; LEDs without a colour stay black and
/// indices past the end are ignored.
pub fn per_led_frame(leds: &[(u32, RgbColor)], count: usize) -> (r: Vec<RgbColor>)
    ensures
        r@ == led_frame(leds@, count as nat),
{
    let mut out: Vec<RgbColor> = vec![no_light(); count];
    let mut n: usize = 0;
    proof {
        assert(out@ =~= led_frame(leds@.take(0), count as nat));
    }
    while n < leds.len()
        invariant
            n <= leds@.len(),
            out@ == led_frame(leds@.take(n as int), count as nat),
        decreases leds@.len() - n,
    {
        let entry: (u32, RgbColor) = leds[n];
        let i: usize = entry.0 as usize;
        if i < count {
            out.set(i, entry.1);
        }
        proof {
            assert(leds@.take(n + 1).drop_last() =~= leds@.take(n as int));
            assert(out@ =~= led_frame(leds@.take(n + 1), count as nat));
        }
        n = n + 1;
    }
    proof {
        assert(leds@.take(n as int) =~= leds@);
    }
    out
}

/// A frame of `count` LEDs in one colour.
pub fn solid_frame(color: RgbColor, count: usize) -> (r: Vec<RgbColor>)
    ensures
        r@ == Seq::new(count as nat, |i: int| color),
{
    let out: Vec<RgbColor> = vec![color; count];
    proof {
        assert(out@ =~= Seq::new(count as nat, |i: int| color));
    }
    out
}

/// The last colour given to an LED counts, and an LED that is given none is black.
pub proof fn the_last_color_counts(
    leds: &[(u32, RgbColor)],
    count: usize,
    r: Vec<RgbColor>,
    k: int,
    i: int,
)
    requires
        call_ensures(per_led_frame, (leds, count), r),
        0 <= i < count,
    ensures
        r@.len() == count,
        0 <= k < leds@.len() && leds@[k].0 == i && (forall|j: int|
            k < j < leds@.len() ==> #[trigger] leds@[j].0 != i) ==> r@[i] == leds@[k].1,
        (forall|j: int| 0 <= j < leds@.len() ==> #[trigger] leds@[j].0 != i) ==> r@[i] == (RgbColor {
            r: 0,
            g: 0,
            b: 0,
        }),
{
    if 0 <= k < leds@.len() && leds@[k].0 == i && (forall|j: int|
        k < j < leds@.len() ==> #[trigger] leds@[j].0 != i) {
        lemma_last_color(leds@, k, i);
    }
    if forall|j: int| 0 <= j < leds@.len() ==> #[trigger] leds@[j].0 != i {
        lemma_no_color(leds@, i);
    }
}

/// The entry after which an LED is not named again gives its colour.
proof fn lemma_last_color(leds: Seq<(u32, RgbColor)>, k: int, i: int)
    requires
        0 <= k < leds.len(),
        leds[k].0 == i,
        forall|j: int| k < j < leds.len() ==> #[trigger] leds[j].0 != i,
    ensures
        led_color(leds, i) == leds[k].1,
    decreases leds.len(),
{
    if k < leds.len() - 1 {
        assert(leds.last().0 != i);
        assert forall|j: int| k < j < leds.drop_last().len() implies #[trigger] leds.drop_last()[j].0
            != i by {
            assert(leds[j].0 != i);
        }
        lemma_last_color(leds.drop_last(), k, i);
    }
}

/// An LED that is not named is black.
proof fn lemma_no_color(leds: Seq<(u32, RgbColor)>, i: int)
    requires
        forall|j: int| 0 <= j < leds.len() ==> #[trigger] leds[j].0 != i,
    ensures
        led_color(leds, i) == black(),
    decreases leds.len(),
{
    if leds.len() > 0 {
        assert(leds.last().0 != i);
        assert forall|j: int| 0 <= j < leds.drop_last().len() implies #[trigger] leds.drop_last()[j].0
            != i by {
            assert(leds[j].0 != i);
        }
        lemma_no_color(leds.drop_last(), i);
    }
}

/// A solid frame has its colour everywhere.
pub proof fn solid_frames_have_one_color(color: RgbColor, count: usize, r: Vec<RgbColor>, i: int)
    requires
        call_ensures(solid_frame, (color, count), r),
        0 <= i < count,
    ensures
        r@.len() == count,
        r@[i] == color,
{
}

/// Of several parameters with a name the first one counts, and likewise of zones; a name
/// that does not occur finds nothing.
pub proof fn the_first_name_counts(
    params: &[EffectParam],
    zones: &[ZoneLeds],
    name: &str,
    p: Option<&EffectParamValue>,
    z: Option<&Vec<(u32, RgbColor)>>,
    k: int,
)
    requires
        call_ensures(find_param, (params, name), p),
        call_ensures(find_zone, (zones, name), z),
    ensures
        0 <= k < params@.len() && params@[k].name@ == name@ && (forall|j: int|
            0 <= j < k ==> (#[trigger] params@[j]).name@ != name@) ==> p == Some(&params@[k].value),
        0 <= k < zones@.len() && zones@[k].zone@ == name@ && (forall|j: int|
            0 <= j < k ==> (#[trigger] zones@[j]).zone@ != name@) ==> z is Some && z->Some_0@
            == zones@[k].leds@,
        (forall|j: int| 0 <= j < params@.len() ==> (#[trigger] params@[j]).name@ != name@) ==> p
            is None,
        (forall|j: int| 0 <= j < zones@.len() ==> (#[trigger] zones@[j]).zone@ != name@) ==> z
            is None,
{
    lemma_first_param(params@, name@, k);
    lemma_first_zone(zones@, name@, k);
}

/// The first parameter with a name.
proof fn lemma_first_param(params: Seq<EffectParam>, name: Seq<char>, k: int)
    ensures
        0 <= k < params.len() && params[k].name@ == name && (forall|j: int|
            0 <= j < k ==> (#[trigger] params[j]).name@ != name) ==> param_named(params, name)
            == Some(params[k].value),
        (forall|j: int| 0 <= j < params.len() ==> (#[trigger] params[j]).name@ != name)
            ==> param_named(params, name) is None,
    decreases params.len(),
{
    if params.len() > 0 {
        let rest = params.drop_first();
        lemma_first_param(rest, name, k - 1);
        assert(forall|j: int| 0 <= j < rest.len() ==> (#[trigger] rest[j]) == params[j + 1]);
        if k == 0 {
        } else if 0 < k < params.len() && (forall|j: int|
            0 <= j < k ==> (#[trigger] params[j]).name@ != name) {
            assert(params[0].name@ != name);
        }
        if forall|j: int| 0 <= j < params.len() ==> (#[trigger] params[j]).name@ != name {
            assert(params[0].name@ != name);
        }
    }
}

/// The first zone with a name.
proof fn lemma_first_zone(zones: Seq<ZoneLeds>, name: Seq<char>, k: int)
    ensures
        0 <= k < zones.len() && zones[k].zone@ == name && (forall|j: int|
            0 <= j < k ==> (#[trigger] zones[j]).zone@ != name) ==> zone_named(zones, name) == Some(
            zones[k].leds@,
        ),
        (forall|j: int| 0 <= j < zones.len() ==> (#[trigger] zones[j]).zone@ != name)
            ==> zone_named(zones, name) is None,
    decreases zones.len(),
{
    if zones.len() > 0 {
        let rest = zones.drop_first();
        lemma_first_zone(rest, name, k - 1);
        assert(forall|j: int| 0 <= j < rest.len() ==> (#[trigger] rest[j]) == zones[j + 1]);
        if 0 < k < zones.len() && (forall|j: int|
            0 <= j < k ==> (#[trigger] zones[j]).zone@ != name) {
            assert(zones[0].zone@ != name);
        }
        if forall|j: int| 0 <= j < zones.len() ==> (#[trigger] zones[j]).zone@ != name {
            assert(zones[0].zone@ != name);
        }
    }
}

} // verus!
