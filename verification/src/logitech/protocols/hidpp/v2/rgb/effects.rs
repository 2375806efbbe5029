//! Firmware effects: their parameter blocks, and replies about zones and effects.

use crate::bytes::{be16, bit, test_bit, two, two_is_positive, u16_be};
use crate::logitech::protocols::hidpp::byte_at;
use crate::rgb::{
    find_param, param_named, EffectParam, EffectParamDescriptor, EffectParamValue, ParamKind,
    RgbColor,
};
use crate::text::same_text;
use vstd::prelude::*;

verus! {

/// Where a parameter stands in a block: a colour in three bytes, or a number between `min`
/// and `max` in one byte, `scale` hundredths of it.
#[derive(Debug, Clone, Copy, PartialEq, Eq, Structural)]
pub enum EffectByteSlot {
    Color { off: usize },
    Byte { off: usize, min: u32, max: u32, scale: u32 },
}

/// An editable parameter of an effect.
#[derive(Debug, Clone, Copy)]
pub struct NativeEffectParam {
    pub id: &'static str,
    pub label: &'static str,
    pub slot: EffectByteSlot,
}

/// An effect: the block that starts it, zone and slot first, and what can be edited in it.
#[derive(Debug)]
pub struct NativeEffectDef {
    pub id: &'static str,
    pub name: &'static str,
    pub base: [u8; 15],
    pub params: Vec<NativeEffectParam>,
}

/// The block of the colour wave.
pub const COLOR_WAVE_BASE: [u8; 15] = [0xFF, 0x00, 0, 0, 0, 0, 0, 0, 0x88, 0x01, 0x64, 0x13, 0x01, 0, 0];

/// The block of the ripple.
pub const RIPPLE_BASE: [u8; 15] = [0xFF, 0x03, 0x5E, 0x5E, 0x5E, 0xFF, 0, 0, 0, 0x14, 0, 0, 0x01, 0, 0];

/// The parameters of the ripple.
pub open spec fn ripple_params() -> Seq<NativeEffectParam> {
    seq![
        NativeEffectParam {
            id: "background",
            label: "Background Color",
            slot: EffectByteSlot::Color { off: 2 },
        },
        NativeEffectParam {
            id: "rate",
            label: "Effect Rate (ms)",
            slot: EffectByteSlot::Byte { off: 9, min: 2, max: 200, scale: 100 },
        },
        NativeEffectParam {
            id: "saturation",
            label: "Saturation",
            slot: EffectByteSlot::Byte { off: 5, min: 0, max: 100, scale: 255 },
        },
    ]
}

/// Whether `r` is the effect with an id.
pub open spec fn is_native_effect(id: Seq<char>, r: Option<NativeEffectDef>) -> bool {
    if id == "color_wave"@ {
        match r {
            Some(e) => {
                &&& e.id == "color_wave"
                &&& e.name == "Color Wave"
                &&& e.base == COLOR_WAVE_BASE
                &&& e.params@.len() == 0
            },
            None => false,
        }
    } else if id == "ripple"@ {
        match r {
            Some(e) => {
                &&& e.id == "ripple"
                &&& e.name == "Ripple"
                &&& e.base == RIPPLE_BASE
                &&& e.params@ == ripple_params()
            },
            None => false,
        }
    } else {
        r is None
    }
}

/// Finds an effect.
pub fn find_native_effect(id: &str) -> (r: Option<NativeEffectDef>)
    ensures
        is_native_effect(id@, r),
        r is Some ==> r->Some_0.wf(),
{
    if same_text(id, "color_wave") {
        Some(
            NativeEffectDef {
                id: "color_wave",
                name: "Color Wave",
                base: COLOR_WAVE_BASE,
                params: Vec::new(),
            },
        )
    } else if same_text(id, "ripple") {
        let params: Vec<NativeEffectParam> = vec![
            NativeEffectParam {
                id: "background",
                label: "Background Color",
                slot: EffectByteSlot::Color { off: 2 },
            },
            NativeEffectParam {
                id: "rate",
                label: "Effect Rate (ms)",
                slot: EffectByteSlot::Byte { off: 9, min: 2, max: 200, scale: 100 },
            },
            NativeEffectParam {
                id: "saturation",
                label: "Saturation",
                slot: EffectByteSlot::Byte { off: 5, min: 0, max: 100, scale: 255 },
            },
        ];
        proof {
            assert(params@ =~= ripple_params());
        }
        Some(NativeEffectDef { id: "ripple", name: "Ripple", base: RIPPLE_BASE, params })
    } else {
        None
    }
}

/// A number of thousandths moved into a range of units.
pub open spec fn clamped_thousandths(n: int, min: int, max: int) -> int {
    if n < min * 1000 {
        min * 1000
    } else if n > max * 1000 {
        max * 1000
    } else {
        n
    }
}

/// Thousandths times a scale in hundredths, rounded to the nearest whole number. Halves are
/// rounded up, but for 50 and 90 at a scale of 255: their products lie just below the half.
pub open spec fn scaled(n: int, scale: int) -> int {
    if scale == 255 && (n == 50_000 || n == 90_000) {
        (n * scale) / 100_000
    } else {
        (n * scale + 50_000) / 100_000
    }
}

/// The number that a byte stands for at a scale, rounded to the nearest whole number.
pub open spec fn unscaled(b: u8, scale: int) -> int {
    (200 * b + scale) / (2 * scale)
}

/// Whether a slot lies within a block, and its values within a byte.
pub open spec fn slot_fits(slot: EffectByteSlot) -> bool {
    match slot {
        EffectByteSlot::Color { off } => off + 3 <= 15,
        EffectByteSlot::Byte { off, min, max, scale } => off < 15 && min <= max && max <= 1000
            && 0 < scale <= 1000 && max * scale <= 25500,
    }
}

/// A block with one parameter put in, where a value of the right kind is given.
pub open spec fn with_param(block: Seq<u8>, p: NativeEffectParam, values: Seq<EffectParam>) -> Seq<
    u8,
> {
    match (p.slot, param_named(values, p.id@)) {
        (EffectByteSlot::Color { off }, Some(EffectParamValue::Color(c))) => block.update(
            off as int,
            c.r,
        ).update(off + 1, c.g).update(off + 2, c.b),
        (EffectByteSlot::Byte { off, min, max, scale }, Some(EffectParamValue::Number(n))) =>
            block.update(
            off as int,
            scaled(clamped_thousandths(n as int, min as int, max as int), scale as int) as u8,
        ),
        _ => block,
    }
}

/// A block with the first `n` parameters put in.
pub open spec fn with_params(
    base: Seq<u8>,
    params: Seq<NativeEffectParam>,
    values: Seq<EffectParam>,
    n: nat,
) -> Seq<u8>
    decreases n,
{
    if n == 0 {
        base
    } else {
        with_param(
            with_params(base, params, values, (n - 1) as nat),
            params[n - 1],
            values,
        )
    }
}

/// Whether `d` describes a parameter, with its default read from the block.
pub open spec fn describes_param(
    base: Seq<u8>,
    p: NativeEffectParam,
    d: EffectParamDescriptor,
) -> bool {
    &&& d.id == p.id
    &&& d.label == p.label
    &&& match p.slot {
        EffectByteSlot::Color { off } => d.kind is Color && d.default == EffectParamValue::Color(
            RgbColor { r: base[off as int], g: base[off + 1], b: base[off + 2] },
        ),
        EffectByteSlot::Byte { off, min, max, scale } => {
            &&& d.kind == (ParamKind::Range {
                min: (min * 1000) as i64,
                max: (max * 1000) as i64,
                step: 1000,
            })
            &&& d.default == EffectParamValue::Number(
                (unscaled(base[off as int], scale as int) * 1000) as i64,
            )
        },
    }
}

/// Scales a number of thousandths.
fn scale_number(n: i64, min: u32, max: u32, scale: u32) -> (r: u8)
    requires
        min <= max <= 1000,
        0 < scale <= 1000,
        max * scale <= 25500,
    ensures
        r == scaled(clamped_thousandths(n as int, min as int, max as int), scale as int),
{
    let lo: i64 = min as i64 * 1000;
    let hi: i64 = max as i64 * 1000;
    let c: i64 = if n < lo {
        lo
    } else if n > hi {
        hi
    } else {
        n
    };
    let s: i64 = scale as i64;
    proof {
        assert(0 <= c * s <= 25_500_000) by (nonlinear_arith)
            requires
                0 <= c <= max * 1000,
                0 < s,
                s == scale,
                max * scale <= 25500,
        ;
    }
    let product: i64 = c * s;
    if s == 255 && (c == 50_000 || c == 90_000) {
        (product / 100_000) as u8
    } else {
        ((product + 50_000) / 100_000) as u8
    }
}

impl NativeEffectDef {
    /// All parameters lie within the block.
    pub open spec fn wf(&self) -> bool {
        forall|i: int| 0 <= i < self.params@.len() ==> slot_fits((#[trigger] self.params@[i]).slot)
    }

    /// Describes the parameters.
    pub fn param_descriptors(&self) -> (r: Vec<EffectParamDescriptor>)
        requires
            self.wf(),
        ensures
            r@.len() == self.params@.len(),
            forall|i: int|
                #![trigger r@[i]]
                0 <= i < r@.len() ==> describes_param(self.base@, self.params@[i], r@[i]),
    {
        let n: usize = self.params.len();
        let mut out: Vec<EffectParamDescriptor> = Vec::new();
        let mut i: usize = 0;
        while i < n
            invariant
                i <= n,
                n == self.params@.len(),
                self.wf(),
                out@.len() == i,
                forall|k: int|
                    #![trigger out@[k]]
                    0 <= k < i ==> describes_param(self.base@, self.params@[k], out@[k]),
            decreases n - i,
        {
            let p: NativeEffectParam = self.params[i];
            proof {
                assert(slot_fits(self.params@[i as int].slot));
            }
            let d = match p.slot {
                EffectByteSlot::Color { off } => EffectParamDescriptor {
                    id: p.id,
                    label: p.label,
                    kind: ParamKind::Color,
                    default: EffectParamValue::Color(
                        RgbColor {
                            r: self.base[off],
                            g: self.base[off + 1],
                            b: self.base[off + 2],
                        },
                    ),
                },
                EffectByteSlot::Byte { off, min, max, scale } => {
                    let b: i64 = self.base[off] as i64;
                    let s: i64 = scale as i64;
                    let value: i64 = (200 * b + s) / (2 * s);
                    proof {
                        assert(0 <= value <= 200 * b + s) by (nonlinear_arith)
                            requires
                                value == (200 * b + s) / (2 * s),
                                0 <= b,
                                0 < s,
                        ;
                    }
                    EffectParamDescriptor {
                        id: p.id,
                        label: p.label,
                        kind: ParamKind::Range {
                            min: min as i64 * 1000,
                            max: max as i64 * 1000,
                            step: 1000,
                        },
                        default: EffectParamValue::Number(value * 1000),
                    }
                },
            };
            out.push(d);
            i = i + 1;
        }
        out
    }

    /// The block with values put in; values of the wrong kind and unknown ones are passed
    /// over.
    pub fn encode(&self, values: &[EffectParam]) -> (r: [u8; 15])
        requires
            self.wf(),
        ensures
            r@ == with_params(self.base@, self.params@, values@, self.params@.len()),
    {
        let n: usize = self.params.len();
        let mut block: [u8; 15] = self.base;
        let mut i: usize = 0;
        while i < n
            invariant
                i <= n,
                n == self.params@.len(),
                self.wf(),
                block@.len() == 15,
                block@ == with_params(self.base@, self.params@, values@, i as nat),
            decreases n - i,
        {
            let p: NativeEffectParam = self.params[i];
            let ghost before = block@;
            proof {
                assert(slot_fits(self.params@[i as int].slot));
            }
            if let Some(v) = find_param(values, p.id) {
                match (p.slot, v) {
                    (EffectByteSlot::Color { off }, EffectParamValue::Color(c)) => {
                        block[off] = c.r;
                        block[off + 1] = c.g;
                        block[off + 2] = c.b;
                    },
                    (
                        EffectByteSlot::Byte { off, min, max, scale },
                        EffectParamValue::Number(f),
                    ) => {
                        block[off] = scale_number(*f, min, max, scale);
                    },
                    _ => {},
                }
            }
            proof {
                assert(block@ =~= with_param(before, p, values@));
            }
            i = i + 1;
        }
        block
    }
}

/// The block of a steady colour.
pub open spec fn static_block(zone_idx: u8, slot: u8, color: RgbColor) -> Seq<u8> {
    seq![
        zone_idx,
        slot,
        color.r,
        color.g,
        color.b,
        0x64u8,
        0x0Bu8,
        0xB8u8,
        0x64u8,
        0u8,
        0u8,
        0u8,
        0x01u8,
        0u8,
        0u8,
    ]
}

/// Encodes a steady colour.
pub fn encode_set_effect_static(zone_idx: u8, slot: u8, color: RgbColor) -> (r: [u8; 15])
    ensures
        r@ == static_block(zone_idx, slot, color),
{
    let r: [u8; 15] = [
        zone_idx,
        slot,
        color.r,
        color.g,
        color.b,
        0x64,
        0x0B,
        0xB8,
        0x64,
        0,
        0,
        0,
        0x01,
        0,
        0,
    ];
    proof {
        assert(r@ =~= static_block(zone_idx, slot, color));
    }
    r
}

/// Reads the number of zones from a reply.
pub fn parse_rgb_zone_count(reply: &[u8]) -> (r: Option<u8>)
    ensures
        r == if reply@.len() >= 3 {
            Some(reply@[2])
        } else {
            None
        },
{
    if reply.len() >= 3 {
        Some(reply[2])
    } else {
        None
    }
}

/// The effect in an entry of a zone's effect table.
pub open spec fn table_entry(reply: Seq<u8>) -> Option<u16> {
    if reply.len() >= 4 {
        Some(be16(reply[2], reply[3]) as u16)
    } else {
        None
    }
}

/// Reads an entry of a zone's effect table.
pub fn parse_rgb_effect_table_entry(reply: &[u8]) -> (r: Option<u16>)
    ensures
        r == table_entry(reply@),
{
    if reply.len() >= 4 {
        Some(u16_be(reply[2], reply[3]))
    } else {
        None
    }
}

/// Whether a bitmap has an LED.
pub open spec fn has_led(bitmap: Seq<u8>, code: nat) -> bool {
    bit(byte_at(bitmap, (code / 8) as int) as nat, code % 8)
}

/// The LEDs of a bitmap from 1 up to but not `end`.
pub open spec fn leds_below(bitmap: Seq<u8>, end: nat) -> Seq<u8>
    decreases end,
{
    if end <= 1 {
        Seq::empty()
    } else {
        let code = (end - 1) as nat;
        let below = leds_below(bitmap, code);
        if has_led(bitmap, code) {
            below.push(code as u8)
        } else {
            below
        }
    }
}

/// Reads the LEDs with codes 1 to 31 from a bitmap; missing bytes have none.
pub fn parse_pk_led_bitmap(bitmap: &[u8]) -> (r: Vec<u8>)
    ensures
        r@ == leds_below(bitmap@, 32),
{
    let mut out: Vec<u8> = Vec::new();
    let mut code: u8 = 1;
    while code < 32
        invariant
            1 <= code <= 32,
            out@ == leds_below(bitmap@, code as nat),
        decreases 32 - code,
    {
        let at: usize = (code / 8) as usize;
        let b: u8 = if at < bitmap.len() {
            bitmap[at]
        } else {
            0
        };
        if test_bit(b, code % 8) {
            out.push(code);
        }
        code = code + 1;
    }
    out
}

/// Whatever number is asked for, the scaled one fits a byte, and at a scale of one it lies
/// within the range of its parameter.
pub proof fn scaled_numbers_stay_in_range(n: int, min: int, max: int, scale: int)
    requires
        0 <= min <= max,
        0 < scale,
        max * scale <= 25500,
    ensures
        0 <= scaled(clamped_thousandths(n, min, max), scale) <= 255,
        scale == 100 ==> min <= scaled(clamped_thousandths(n, min, max), scale) <= max,
{
    let c = clamped_thousandths(n, min, max);
    assert(0 <= c * scale <= 25_500_000) by (nonlinear_arith)
        requires
            0 <= c <= max * 1000,
            0 < scale,
            max * scale <= 25500,
    ;
}

/// The bitmap of LEDs and their list agree.
pub proof fn listed_leds_are_set(bitmap: Seq<u8>, end: nat, code: u8)
    requires
        end <= 32,
    ensures
        leds_below(bitmap, end).contains(code) <==> 1 <= code < end && has_led(
            bitmap,
            code as nat,
        ),
    decreases end,
{
    if end > 1 {
        let c = (end - 1) as nat;
        listed_leds_are_set(bitmap, c, code);
        let below = leds_below(bitmap, c);
        let all = leds_below(bitmap, end);
        if below.contains(code) {
            let i = choose|i: int| 0 <= i < below.len() && below[i] == code;
            assert(all[i] == code);
        }
        if all.contains(code) {
            let i = choose|i: int| 0 <= i < all.len() && all[i] == code;
            if i < below.len() {
                assert(below[i] == code);
            }
        }
        if code == c && has_led(bitmap, c) {
            assert(all[below.len() as int] == code);
        }
    }
}

/// A steady colour stands behind zone and slot in its block.
pub proof fn steady_blocks_hold_their_color(zone: u8, slot: u8, color: RgbColor, r: [u8; 15])
    requires
        call_ensures(encode_set_effect_static, (zone, slot, color), r),
    ensures
        r@ == seq![
            zone, slot, color.r, color.g, color.b, 0x64u8, 0x0B, 0xB8, 0x64, 0, 0, 0, 0x01, 0, 0,
        ],
{
}

/// The colour wave has nothing to edit; the ripple has a background colour, a rate and a
/// saturation. There is no other effect.
pub proof fn two_effects_are_known(id: &str, r: Option<NativeEffectDef>)
    requires
        call_ensures(find_native_effect, (id,), r),
    ensures
        r is Some <==> id@ == "color_wave"@ || id@ == "ripple"@,
        r matches Some(e) ==> e.id@ == id@,
        id@ == "color_wave"@ ==> r->Some_0.params@.len() == 0 && r->Some_0.base@ == seq![
            0xFFu8, 0x00, 0, 0, 0, 0, 0, 0, 0x88, 0x01, 0x64, 0x13, 0x01, 0, 0,
        ],
        id@ == "ripple"@ ==> {
            let e = r->Some_0;
            &&& e.base@ == seq![
                0xFFu8, 0x03, 0x5E, 0x5E, 0x5E, 0xFF, 0, 0, 0, 0x14, 0, 0, 0x01, 0, 0,
            ]
            &&& e.params@.len() == 3
            &&& e.params@[0].id == "background" && e.params@[0].slot == (EffectByteSlot::Color {
                off: 2,
            })
            &&& e.params@[1].id == "rate" && e.params@[1].slot == (EffectByteSlot::Byte {
                off: 9,
                min: 2,
                max: 200,
                scale: 100,
            })
            &&& e.params@[2].id == "saturation" && e.params@[2].slot == (EffectByteSlot::Byte {
                off: 5,
                min: 0,
                max: 100,
                scale: 255,
            })
        },
{
    let w = COLOR_WAVE_BASE;
    let p = RIPPLE_BASE;
    assert(w@ =~= seq![0xFFu8, 0x00, 0, 0, 0, 0, 0, 0, 0x88, 0x01, 0x64, 0x13, 0x01, 0, 0]);
    assert(p@ =~= seq![0xFFu8, 0x03, 0x5E, 0x5E, 0x5E, 0xFF, 0, 0, 0, 0x14, 0, 0, 0x01, 0, 0]);
    reveal_strlit("color_wave");
    reveal_strlit("ripple");
    assert("color_wave"@.len() == 10 && "ripple"@.len() == 6);
}

/// The background of a ripple is the colour it is given, its rate the number of milliseconds
/// and its saturation the percentage of a full byte, both rounded; everything else in the
/// block stays. What is not given keeps its default.
pub proof fn ripples_hold_their_parameters(
    e: NativeEffectDef,
    values: &[EffectParam],
    r: [u8; 15],
    i: int,
)
    requires
        call_ensures(find_native_effect, ("ripple",), Some(e)),
        call_ensures(NativeEffectDef::encode, (&e, values), r),
        e.wf(),
        0 <= i < 15,
    ensures
        param_named(values@, "background"@) matches Some(EffectParamValue::Color(c)) ==> r@[2]
            == c.r && r@[3] == c.g && r@[4] == c.b,
        param_named(values@, "background"@) is None ==> r@[2] == 0x5E && r@[3] == 0x5E && r@[4]
            == 0x5E,
        param_named(values@, "rate"@) matches Some(EffectParamValue::Number(n)) ==> {
            &&& 2000 <= n <= 200000 ==> -500 <= 1000 * r@[9] - n <= 500
            &&& n < 2000 ==> r@[9] == 2
            &&& n > 200000 ==> r@[9] == 200
        },
        param_named(values@, "rate"@) is None ==> r@[9] == 0x14,
        param_named(values@, "saturation"@) matches Some(EffectParamValue::Number(n)) ==> {
            &&& 0 <= n <= 100000 ==> -50000 <= 100000 * r@[5] - 255 * n <= 50000
            &&& n < 0 ==> r@[5] == 0
            &&& n > 100000 ==> r@[5] == 255
        },
        param_named(values@, "saturation"@) is None ==> r@[5] == 0xFF,
        i < 2 || 6 <= i < 9 || i > 9 ==> r@[i] == e.base@[i],
{
    reveal_with_fuel(with_params, 4);
    two_effects_are_known("ripple", Some(e));
    let a = with_param(e.base@, e.params@[0], values@);
    let b = with_param(a, e.params@[1], values@);
    let c = with_param(b, e.params@[2], values@);
    assert(r@ == c);
}

/// A parameter is described under its own name with the value that the block has for it.
pub proof fn parameters_start_from_the_block(e: NativeEffectDef, r: Vec<EffectParamDescriptor>)
    requires
        call_ensures(find_native_effect, ("ripple",), Some(e)),
        call_ensures(NativeEffectDef::param_descriptors, (&e,), r),
        e.wf(),
    ensures
        r@.len() == 3,
        r@[0].id == "background" && r@[0].kind is Color && r@[0].default == EffectParamValue::Color(
            RgbColor { r: 0x5E, g: 0x5E, b: 0x5E },
        ),
        r@[1].id == "rate" && r@[1].kind == (ParamKind::Range { min: 2000, max: 200000, step: 1000 })
            && r@[1].default == EffectParamValue::Number(20000),
        r@[2].id == "saturation" && r@[2].kind == (ParamKind::Range {
            min: 0,
            max: 100000,
            step: 1000,
        }) && r@[2].default == EffectParamValue::Number(100000),
{
    two_effects_are_known("ripple", Some(e));
    assert(describes_param(e.base@, e.params@[0], r@[0]));
    assert(describes_param(e.base@, e.params@[1], r@[1]));
    assert(describes_param(e.base@, e.params@[2], r@[2]));
}

/// The number of zones is the third byte of its reply, an effect the pair of bytes at 2, high
/// byte first.
pub proof fn zones_and_effects_are_read(reply: &[u8], count: Option<u8>, effect: Option<u16>)
    requires
        call_ensures(parse_rgb_zone_count, (reply,), count),
        call_ensures(parse_rgb_effect_table_entry, (reply,), effect),
    ensures
        count is Some <==> reply@.len() >= 3,
        count is Some ==> count->Some_0 == reply@[2],
        effect is Some <==> reply@.len() >= 4,
        effect is Some ==> effect->Some_0 == 256 * reply@[2] + reply@[3],
{
}

/// LED `code` is bit `code % 8` of byte `code / 8`; LED zero does not exist, and those from
/// 32 on are not listed.
pub proof fn leds_are_bits(bitmap: &[u8], r: Vec<u8>, code: u8)
    requires
        call_ensures(parse_pk_led_bitmap, (bitmap,), r),
    ensures
        r@.contains(code) <==> 1 <= code < 32 && code / 8 < bitmap@.len() && bit(
            bitmap@[(code / 8) as int] as nat,
            (code % 8) as nat,
        ),
{
    listed_leds_are_set(bitmap@, 32, code);
    if code / 8 >= bitmap@.len() {
        let k = (code % 8) as nat;
        lemma_no_bits(k);
    }
}

/// Zero has no bits.
proof fn lemma_no_bits(k: nat)
    ensures
        !bit(0, k),
{
    two_is_positive(k);
    let t = two(k) as int;
    assert(0int / t == 0) by (nonlinear_arith)
        requires
            t > 0,
    ;
}

} // verus!
