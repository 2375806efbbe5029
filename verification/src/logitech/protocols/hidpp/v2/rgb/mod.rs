//! Lighting: zones and effects, single keys, and the keyboard's layout.

use crate::bytes::bit;
use crate::logitech::protocols::hidpp::byte_at;
use crate::logitech::protocols::hidpp::v2::feature::{
    COLOR_LED_EFFECTS, KEYBOARD_LAYOUT_2, PER_KEY_LIGHTING_V2, RGB_EFFECTS,
};
use crate::logitech::protocols::hidpp::v2::rgb::color_led::{
    effect_entry_in, encode_color_led_set_effect_static, led_static_block,
    parse_color_led_effect_entry, parse_color_led_zone_count, parse_color_led_zone_info,
    zone_info_in,
};
use crate::logitech::protocols::hidpp::v2::rgb::effects::{
    encode_set_effect_static, find_native_effect, leds_below, listed_leds_are_set,
    parse_pk_led_bitmap, parse_rgb_effect_table_entry, parse_rgb_zone_count, ripple_params,
    static_block, table_entry, with_params, NativeEffectDef, COLOR_WAVE_BASE, RIPPLE_BASE,
};
use crate::logitech::protocols::hidpp::v2::rgb::per_key::{
    all_keys_params, commit_packet, encode_frame, encode_individual_pairs,
    encode_per_key_set_range, frame_packets, individual_packets, sent, views, PkFrameCache,
};
use crate::logitech::protocols::hidpp::v2::{asks, calls_ask, index_in, Hidpp20};
use crate::logitech::protocols::hidpp::{reads_as, HidppMessenger};
use crate::rgb::{EffectParam, RgbColor};
use vstd::prelude::*;

pub mod color_led;
pub mod delta;
pub mod effects;
pub mod per_key;

verus! {

/// Asks about zones and effects.
pub const RGB_GET_INFO: u8 = 0x00;

/// Starts an effect.
pub const RGB_SET_EFFECT: u8 = 0x10;

/// Gives the lighting to the host.
pub const RGB_SET_SW_CONTROL: u8 = 0x50;

/// Asks for the number of zones of the older feature.
pub const CLED_GET_INFO: u8 = 0x00;

/// Asks for a zone of the older feature.
pub const CLED_GET_ZONE_INFO: u8 = 0x10;

/// Asks for an effect of the older feature.
pub const CLED_GET_ZONE_EFFECT_INFO: u8 = 0x20;

/// Starts an effect of the older feature.
pub const CLED_SET_EFFECT: u8 = 0x30;

/// Gives the lighting of the older feature to the host.
pub const CLED_SET_SW_CONTROL: u8 = 0x80;

/// Bytes of an LED bitmap in one reply.
pub const BITMAP_PAGE: usize = 13;

/// How the keys are arranged and labelled.
#[derive(Debug, Clone, Copy, PartialEq, Eq, Structural)]
pub enum KeyboardLayout {
    Unknown,
    US,
    CH,
    IT,
}

/// The layout of a country code.
pub open spec fn layout_of(code: u8) -> KeyboardLayout {
    if code == 1 {
        KeyboardLayout::US
    } else if code == 13 {
        KeyboardLayout::CH
    } else if code == 14 {
        KeyboardLayout::IT
    } else {
        KeyboardLayout::Unknown
    }
}

impl Hidpp20 {
    /// Reads the layout from a reply; unknown where the question failed.
    pub fn read_keyboard_layout(reply: Option<&[u8]>) -> (r: KeyboardLayout)
        ensures
            r == match reply {
                Some(data) => if data@.len() > 0 {
                    layout_of(data@[0])
                } else {
                    KeyboardLayout::Unknown
                },
                None => KeyboardLayout::Unknown,
            },
    {
        match reply {
            Some(data) => {
                if data.len() == 0 {
                    return KeyboardLayout::Unknown;
                }
                match data[0] {
                    1 => KeyboardLayout::US,
                    13 => KeyboardLayout::CH,
                    14 => KeyboardLayout::IT,
                    _ => KeyboardLayout::Unknown,
                }
            },
            None => KeyboardLayout::Unknown,
        }
    }

    /// Reads the number of zones; none where the question failed.
    pub fn rgb_zone_count(reply: Option<&[u8]>) -> (r: Option<u8>)
        ensures
            r == match reply {
                Some(data) => if data@.len() >= 3 {
                    Some(data@[2])
                } else {
                    None
                },
                None => None,
            },
    {
        match reply {
            Some(data) => parse_rgb_zone_count(data),
            None => None,
        }
    }

    /// Reads the number of effects of a zone; 0 where the question failed.
    pub fn rgb_zone_effect_count(reply: Option<&[u8]>) -> (r: u8)
        ensures
            r == match reply {
                Some(data) => byte_at(data@, 4),
                None => 0,
            },
    {
        match reply {
            Some(data) => if data.len() > 4 {
                data[4]
            } else {
                0
            },
            None => 0,
        }
    }

    /// Reads an effect of a zone; none where the question failed.
    pub fn rgb_effect_id(reply: Option<&[u8]>) -> (r: Option<u16>)
        ensures
            r == match reply {
                Some(data) => table_entry(data@),
                None => None,
            },
    {
        match reply {
            Some(data) => parse_rgb_effect_table_entry(data),
            None => None,
        }
    }

    /// Reads the number of zones of the older feature; none where the question failed.
    pub fn color_led_zone_count(reply: Option<&[u8]>) -> (r: Option<u8>)
        ensures
            r == match reply {
                Some(data) => if data@.len() < 5 {
                    None
                } else {
                    Some(data@[0])
                },
                None => None,
            },
    {
        match reply {
            Some(data) => parse_color_led_zone_count(data),
            None => None,
        }
    }

    /// Reads a zone of the older feature; none where the question failed.
    pub fn color_led_zone_info(reply: Option<&[u8]>) -> (r: Option<(u8, u16, u8)>)
        ensures
            r == match reply {
                Some(data) => zone_info_in(data@),
                None => None,
            },
    {
        match reply {
            Some(data) => parse_color_led_zone_info(data),
            None => None,
        }
    }

    /// Reads an effect of the older feature; none where the question failed.
    pub fn color_led_effect_id(reply: Option<&[u8]>) -> (r: Option<u16>)
        ensures
            r == match reply {
                Some(data) => effect_entry_in(data@),
                None => None,
            },
    {
        match reply {
            Some(data) => parse_color_led_effect_entry(data),
            None => None,
        }
    }
}

/// The bitmap in the replies for its first `n` pages; a page that could not be read is
/// empty.
pub open spec fn bitmap_pages(replies: Seq<Option<Vec<u8>>>, n: nat) -> Seq<u8>
    decreases n,
{
    if n == 0 {
        Seq::empty()
    } else {
        let p = n - 1;
        bitmap_pages(replies, p as nat) + if p < replies.len() && replies[p] is Some
            && replies[p]->Some_0@.len() >= 15 {
            replies[p]->Some_0@.subrange(2, 15)
        } else {
            Seq::new(BITMAP_PAGE as nat, |i: int| 0u8)
        }
    }
}

impl Hidpp20 {
    /// Reads the LEDs of a mouse from the replies for the three pages of its bitmap.
    pub fn read_pk_led_ids(replies: &[Option<Vec<u8>>]) -> (r: Vec<u8>)
        ensures
            r@ == leds_below(bitmap_pages(replies@, 3), 32),
    {
        let mut bitmap: Vec<u8> = Vec::new();
        let mut page: usize = 0;
        while page < 3
            invariant
                page <= 3,
                bitmap@ == bitmap_pages(replies@, page as nat),
            decreases 3 - page,
        {
            let ghost before = bitmap@;
            let mut found = false;
            if page < replies.len() {
                if let Some(reply) = &replies[page] {
                    if reply.len() >= 15 {
                        found = true;
                        let mut i: usize = 2;
                        while i < 15
                            invariant
                                2 <= i <= 15,
                                reply@.len() >= 15,
                                bitmap@ =~= before + reply@.subrange(2, i as int),
                            decreases 15 - i,
                        {
                            bitmap.push(reply[i]);
                            i = i + 1;
                        }
                    }
                }
            }
            if !found {
                let mut i: usize = 0;
                while i < 13
                    invariant
                        i <= 13,
                        bitmap@ =~= before + Seq::new(i as nat, |k: int| 0u8),
                    decreases 13 - i,
                {
                    bitmap.push(0);
                    i = i + 1;
                }
            }
            page = page + 1;
        }
        parse_pk_led_bitmap(bitmap.as_slice())
    }
}

/// Why an effect was not started.
#[derive(Debug, Clone, Copy, PartialEq, Eq, Structural)]
pub enum EffectError {
    NoFeature,
    UnknownEffect,
}

/// The block of a firmware effect with values put in.
pub open spec fn effect_block(id: Seq<char>, values: Seq<EffectParam>) -> Option<Seq<u8>> {
    if id == "color_wave"@ {
        Some(COLOR_WAVE_BASE@)
    } else if id == "ripple"@ {
        Some(with_params(RIPPLE_BASE@, ripple_params(), values, ripple_params().len()))
    } else {
        None
    }
}

impl Hidpp20 {
    /// Asks for the layout.
    pub fn keyboard_layout_request(&self, msg: &mut HidppMessenger) -> (r: Option<Vec<u8>>)
        ensures
            self.calls(*old(msg), *final(msg), KEYBOARD_LAYOUT_2, 0x00, Seq::empty(), r),
    {
        self.request_plain(msg, KEYBOARD_LAYOUT_2, 0x00)
    }

    /// Asks for the number of zones.
    pub fn rgb_zone_count_request(&self, msg: &mut HidppMessenger) -> (r: Option<Vec<u8>>)
        ensures
            self.calls(
                *old(msg),
                *final(msg),
                RGB_EFFECTS,
                RGB_GET_INFO,
                seq![0xFFu8, 0xFFu8, 0u8],
                r,
            ),
    {
        self.request_three(msg, RGB_EFFECTS, RGB_GET_INFO, 0xFF, 0xFF, 0x00)
    }

    /// Asks about a zone.
    pub fn rgb_zone_request(&self, msg: &mut HidppMessenger, z: u8) -> (r: Option<Vec<u8>>)
        ensures
            self.calls(
                *old(msg),
                *final(msg),
                RGB_EFFECTS,
                RGB_GET_INFO,
                seq![z, 0xFFu8, 0u8],
                r,
            ),
    {
        self.request_three(msg, RGB_EFFECTS, RGB_GET_INFO, z, 0xFF, 0x00)
    }

    /// Asks about an effect of a zone.
    pub fn rgb_effect_request(&self, msg: &mut HidppMessenger, z: u8, slot: u8) -> (r: Option<
        Vec<u8>,
    >)
        ensures
            self.calls(
                *old(msg),
                *final(msg),
                RGB_EFFECTS,
                RGB_GET_INFO,
                seq![z, slot, 0u8],
                r,
            ),
    {
        self.request_three(msg, RGB_EFFECTS, RGB_GET_INFO, z, slot, 0x00)
    }

    /// Shows a steady colour in a zone.
    pub fn rgb_set_static_effect(
        &self,
        msg: &mut HidppMessenger,
        zone_idx: u8,
        slot: u8,
        color: RgbColor,
    ) -> (r: Option<Vec<u8>>)
        ensures
            self.calls(
                *old(msg),
                *final(msg),
                RGB_EFFECTS,
                RGB_SET_EFFECT,
                static_block(zone_idx, slot, color),
                r,
            ),
    {
        let block: [u8; 15] = encode_set_effect_static(zone_idx, slot, color);
        self.request(msg, RGB_EFFECTS, RGB_SET_EFFECT, &block)
    }

    /// Starts a firmware effect.
    pub fn rgb_set_native_effect(
        &self,
        msg: &mut HidppMessenger,
        id: &str,
        values: &[EffectParam],
    ) -> (r: Result<Vec<u8>, EffectError>)
        ensures
            match r {
                Ok(p) => match effect_block(id@, values@) {
                    Some(block) => index_in(self.features@, RGB_EFFECTS) is Some && self.calls(
                        *old(msg),
                        *final(msg),
                        RGB_EFFECTS,
                        RGB_SET_EFFECT,
                        block,
                        Some(p),
                    ),
                    None => false,
                },
                Err(e) => {
                    &&& *final(msg) == *old(msg)
                    &&& if index_in(self.features@, RGB_EFFECTS) is None {
                        e == EffectError::NoFeature
                    } else {
                        effect_block(id@, values@) is None && e == EffectError::UnknownEffect
                    }
                },
            },
    {
        let idx: u8 = match self.idx(RGB_EFFECTS) {
            Some(idx) => idx,
            None => {
                return Err(EffectError::NoFeature);
            },
        };
        match find_native_effect(id) {
            Some(effect) => {
                let block: [u8; 15] = effect.encode(values);
                Ok(self.call(msg, idx, RGB_SET_EFFECT, &block))
            },
            None => Err(EffectError::UnknownEffect),
        }
    }

    /// Gives the lighting to the host.
    pub fn rgb_enable_sw_control(&self, msg: &mut HidppMessenger) -> (r: Option<Vec<u8>>)
        ensures
            self.calls(
                *old(msg),
                *final(msg),
                RGB_EFFECTS,
                RGB_SET_SW_CONTROL,
                seq![1u8, 1u8],
                r,
            ),
    {
        let params: [u8; 2] = [0x01, 0x01];
        proof {
            assert(params@ =~= seq![1u8, 1u8]);
        }
        self.request(msg, RGB_EFFECTS, RGB_SET_SW_CONTROL, &params)
    }

    /// Asks for the number of zones of the older feature.
    pub fn color_led_zone_count_request(&self, msg: &mut HidppMessenger) -> (r: Option<Vec<u8>>)
        ensures
            self.calls(*old(msg), *final(msg), COLOR_LED_EFFECTS, CLED_GET_INFO, Seq::empty(), r),
    {
        self.request_plain(msg, COLOR_LED_EFFECTS, CLED_GET_INFO)
    }

    /// Asks for a zone of the older feature.
    pub fn color_led_zone_request(&self, msg: &mut HidppMessenger, z: u8) -> (r: Option<Vec<u8>>)
        ensures
            self.calls(
                *old(msg),
                *final(msg),
                COLOR_LED_EFFECTS,
                CLED_GET_ZONE_INFO,
                seq![z, 0xFFu8, 0u8],
                r,
            ),
    {
        self.request_three(msg, COLOR_LED_EFFECTS, CLED_GET_ZONE_INFO, z, 0xFF, 0x00)
    }

    /// Asks for an effect of the older feature.
    pub fn color_led_effect_request(&self, msg: &mut HidppMessenger, z: u8, slot: u8) -> (r: Option<
        Vec<u8>,
    >)
        ensures
            self.calls(
                *old(msg),
                *final(msg),
                COLOR_LED_EFFECTS,
                CLED_GET_ZONE_EFFECT_INFO,
                seq![z, slot, 0u8],
                r,
            ),
    {
        self.request_three(msg, COLOR_LED_EFFECTS, CLED_GET_ZONE_EFFECT_INFO, z, slot, 0x00)
    }

    /// Shows a steady colour in a zone of the older feature.
    pub fn color_led_set_static_effect(
        &self,
        msg: &mut HidppMessenger,
        zone_idx: u8,
        slot: u8,
        color: RgbColor,
    ) -> (r: Option<Vec<u8>>)
        ensures
            self.calls(
                *old(msg),
                *final(msg),
                COLOR_LED_EFFECTS,
                CLED_SET_EFFECT,
                led_static_block(zone_idx, slot, color),
                r,
            ),
    {
        let payload: [u8; 12] = encode_color_led_set_effect_static(zone_idx, slot, color);
        self.request(msg, COLOR_LED_EFFECTS, CLED_SET_EFFECT, &payload)
    }

    /// Gives the lighting of the older feature to the host.
    pub fn color_led_enable_sw_control(&self, msg: &mut HidppMessenger) -> (r: Option<Vec<u8>>)
        ensures
            self.calls(
                *old(msg),
                *final(msg),
                COLOR_LED_EFFECTS,
                CLED_SET_SW_CONTROL,
                seq![1u8],
                r,
            ),
    {
        self.request_byte(msg, COLOR_LED_EFFECTS, CLED_SET_SW_CONTROL, 0x01)
    }

    /// Sets all keys to one colour; to be followed by a commit.
    pub fn per_key_set_all(&self, msg: &mut HidppMessenger, color: RgbColor) -> (r: Option<Vec<u8>>)
        ensures
            self.calls(
                *old(msg),
                *final(msg),
                PER_KEY_LIGHTING_V2,
                0x50,
                all_keys_params(color),
                r,
            ),
    {
        let params: [u8; 5] = encode_per_key_set_range(color);
        self.request(msg, PER_KEY_LIGHTING_V2, 0x50, &params)
    }

    /// Shows the keys that were set.
    pub fn per_key_commit(&self, msg: &mut HidppMessenger) -> (r: Option<Vec<u8>>)
        ensures
            self.calls(*old(msg), *final(msg), PER_KEY_LIGHTING_V2, 0x70, seq![0u8], r),
    {
        self.request_byte(msg, PER_KEY_LIGHTING_V2, 0x70, 0x00)
    }

    /// Asks for a page of the LED bitmap.
    pub fn pk_led_page_request(&self, msg: &mut HidppMessenger, page: u8) -> (r: Option<Vec<u8>>)
        ensures
            self.calls(
                *old(msg),
                *final(msg),
                PER_KEY_LIGHTING_V2,
                RGB_GET_INFO,
                seq![0u8, 0u8, page],
                r,
            ),
    {
        self.request_three(msg, PER_KEY_LIGHTING_V2, RGB_GET_INFO, 0x00, 0x00, page)
    }

    /// Encodes a frame; nothing without the feature, and nothing where nothing changed.
    pub fn encode_per_key_frame(&self, keys: &[(u8, RgbColor)], cache: &mut PkFrameCache) -> (r:
        Vec<Vec<u8>>)
        ensures
            match index_in(self.features@, PER_KEY_LIGHTING_V2) {
                Some(pk) => {
                    &&& views(r@) == frame_packets(keys@, old(cache).last@, self.devnum, pk)
                    &&& final(cache).last@ == sent(keys@)
                },
                None => r@.len() == 0 && *final(cache) == *old(cache),
            },
    {
        match self.idx(PER_KEY_LIGHTING_V2) {
            Some(pk) => encode_frame(keys, cache, self.devnum, pk),
            None => Vec::new(),
        }
    }

    /// Encodes single keys; nothing without the feature.
    pub fn write_per_key_pairs(&self, pairs: &[(u8, u8, u8, u8)]) -> (r: Vec<Vec<u8>>)
        ensures
            match index_in(self.features@, PER_KEY_LIGHTING_V2) {
                Some(pk) => views(r@) == if pairs@.len() == 0 {
                    Seq::empty()
                } else {
                    individual_packets(pairs@, self.devnum, pk).push(
                        commit_packet(self.devnum, pk),
                    )
                },
                None => r@.len() == 0,
            },
    {
        match self.idx(PER_KEY_LIGHTING_V2) {
            Some(pk) => encode_individual_pairs(pairs, self.devnum, pk),
            None => Vec::new(),
        }
    }

    /// The number of the device.
    pub fn devnum(&self) -> (r: u8)
        ensures
            r == self.devnum,
    {
        self.devnum
    }
}

/// The layout follows from its country code.
pub proof fn layouts_have_their_codes(reply: &[u8], r: KeyboardLayout, none: KeyboardLayout)
    requires
        call_ensures(Hidpp20::read_keyboard_layout, (Some(reply),), r),
        call_ensures(Hidpp20::read_keyboard_layout, (None::<&[u8]>,), none),
    ensures
        none == KeyboardLayout::Unknown,
        r == KeyboardLayout::US <==> reply@.len() > 0 && reply@[0] == 1,
        r == KeyboardLayout::CH <==> reply@.len() > 0 && reply@[0] == 13,
        r == KeyboardLayout::IT <==> reply@.len() > 0 && reply@[0] == 14,
{
}

/// Replies about zones and effects give their bytes.
pub proof fn lighting_replies_give_their_bytes(
    reply: &[u8],
    zones: Option<u8>,
    effects: u8,
    effect: Option<u16>,
    old_zones: Option<u8>,
    old_zone: Option<(u8, u16, u8)>,
    old_effect: Option<u16>,
)
    requires
        call_ensures(Hidpp20::rgb_zone_count, (Some(reply),), zones),
        call_ensures(Hidpp20::rgb_zone_effect_count, (Some(reply),), effects),
        call_ensures(Hidpp20::rgb_effect_id, (Some(reply),), effect),
        call_ensures(Hidpp20::color_led_zone_count, (Some(reply),), old_zones),
        call_ensures(Hidpp20::color_led_zone_info, (Some(reply),), old_zone),
        call_ensures(Hidpp20::color_led_effect_id, (Some(reply),), old_effect),
    ensures
        reply@.len() >= 8 ==> {
            let d = reply@;
            &&& zones == Some(d[2])
            &&& effects == d[4]
            &&& effect == Some((256 * d[2] + d[3]) as u16)
            &&& old_zones == Some(d[0])
            &&& old_zone == Some((d[0], (256 * d[1] + d[2]) as u16, d[3]))
            &&& old_effect == Some((256 * d[2] + d[3]) as u16)
        },
        reply@.len() < 3 ==> zones is None && old_zone is None,
        reply@.len() < 4 ==> effect is None,
        reply@.len() < 5 ==> effects == 0 && old_zones is None,
        reply@.len() < 8 ==> old_effect is None,
{
}

/// Zones and effects are asked for through feature 0x8071, and through 0x8070 on older
/// devices.
pub proof fn zones_are_asked_for(
    d: Hidpp20,
    z: u8,
    slot: u8,
    m1: &mut HidppMessenger,
    m2: &mut HidppMessenger,
    m3: &mut HidppMessenger,
    m4: &mut HidppMessenger,
    m5: &mut HidppMessenger,
    m6: &mut HidppMessenger,
    m7: &mut HidppMessenger,
    layout: Option<Vec<u8>>,
    count: Option<Vec<u8>>,
    zone: Option<Vec<u8>>,
    effect: Option<Vec<u8>>,
    old_count: Option<Vec<u8>>,
    old_zone: Option<Vec<u8>>,
    old_effect: Option<Vec<u8>>,
)
    requires
        call_ensures(Hidpp20::keyboard_layout_request, (&d, m1), layout),
        call_ensures(Hidpp20::rgb_zone_count_request, (&d, m2), count),
        call_ensures(Hidpp20::rgb_zone_request, (&d, m3, z), zone),
        call_ensures(Hidpp20::rgb_effect_request, (&d, m4, z, slot), effect),
        call_ensures(Hidpp20::color_led_zone_count_request, (&d, m5), old_count),
        call_ensures(Hidpp20::color_led_zone_request, (&d, m6, z), old_zone),
        call_ensures(Hidpp20::color_led_effect_request, (&d, m7, z, slot), old_effect),
    ensures
        asks(d, 0x4540, 0x01, Seq::empty(), layout),
        asks(d, 0x8071, 0x01, seq![0xFFu8, 0xFF, 0], count),
        asks(d, 0x8071, 0x01, seq![z, 0xFF, 0], zone),
        asks(d, 0x8071, 0x01, seq![z, slot, 0], effect),
        asks(d, 0x8070, 0x01, Seq::empty(), old_count),
        asks(d, 0x8070, 0x11, seq![z, 0xFF, 0], old_zone),
        asks(d, 0x8070, 0x21, seq![z, slot, 0], old_effect),
{
    calls_ask(d, *old(m1), *final(m1), 0x4540, 0x00, Seq::empty(), layout);
    calls_ask(d, *old(m2), *final(m2), 0x8071, 0x00, seq![0xFFu8, 0xFF, 0], count);
    calls_ask(d, *old(m3), *final(m3), 0x8071, 0x00, seq![z, 0xFF, 0], zone);
    calls_ask(d, *old(m4), *final(m4), 0x8071, 0x00, seq![z, slot, 0], effect);
    calls_ask(d, *old(m5), *final(m5), 0x8070, 0x00, Seq::empty(), old_count);
    calls_ask(d, *old(m6), *final(m6), 0x8070, 0x10, seq![z, 0xFF, 0], old_zone);
    calls_ask(d, *old(m7), *final(m7), 0x8070, 0x20, seq![z, slot, 0], old_effect);
}

/// A steady colour is shown by naming zone and slot before it, and the host takes the
/// lighting over by a command of its own.
pub proof fn steady_colors_are_shown(
    d: Hidpp20,
    z: u8,
    slot: u8,
    color: RgbColor,
    m1: &mut HidppMessenger,
    m2: &mut HidppMessenger,
    m3: &mut HidppMessenger,
    m4: &mut HidppMessenger,
    steady: Option<Vec<u8>>,
    old_steady: Option<Vec<u8>>,
    control: Option<Vec<u8>>,
    old_control: Option<Vec<u8>>,
)
    requires
        call_ensures(Hidpp20::rgb_set_static_effect, (&d, m1, z, slot, color), steady),
        call_ensures(Hidpp20::color_led_set_static_effect, (&d, m2, z, slot, color), old_steady),
        call_ensures(Hidpp20::rgb_enable_sw_control, (&d, m3), control),
        call_ensures(Hidpp20::color_led_enable_sw_control, (&d, m4), old_control),
    ensures
        asks(
            d,
            0x8071,
            0x11,
            seq![
                z, slot, color.r, color.g, color.b, 0x64u8, 0x0B, 0xB8, 0x64, 0, 0, 0, 0x01, 0, 0,
            ],
            steady,
        ),
        asks(
            d,
            0x8070,
            0x31,
            seq![z, slot, color.r, color.g, color.b, 0u8, 0, 0, 0, 0, 0, 0],
            old_steady,
        ),
        asks(d, 0x8071, 0x51, seq![1u8, 1], control),
        asks(d, 0x8070, 0x81, seq![1u8], old_control),
{
    calls_ask(d, *old(m1), *final(m1), 0x8071, 0x10, static_block(z, slot, color), steady);
    calls_ask(d, *old(m2), *final(m2), 0x8070, 0x30, led_static_block(z, slot, color), old_steady);
    calls_ask(d, *old(m3), *final(m3), 0x8071, 0x50, seq![1u8, 1], control);
    calls_ask(d, *old(m4), *final(m4), 0x8070, 0x80, seq![1u8], old_control);
}

/// A firmware effect is started by its block through feature 0x8071; a device without the
/// feature and an unknown effect are refused each for its reason.
pub proof fn effects_are_started(
    d: Hidpp20,
    m: &mut HidppMessenger,
    id: &str,
    values: &[EffectParam],
    r: Result<Vec<u8>, EffectError>,
    e: Option<NativeEffectDef>,
    block: [u8; 15],
)
    requires
        call_ensures(Hidpp20::rgb_set_native_effect, (&d, m, id, values), r),
        call_ensures(find_native_effect, (id,), e),
        e is Some ==> call_ensures(NativeEffectDef::encode, (&e->Some_0, values), block),
    ensures
        !d.features@.contains_key(0x8071) ==> r == Err::<Vec<u8>, EffectError>(
            EffectError::NoFeature,
        ),
        d.features@.contains_key(0x8071) && e is None ==> r == Err::<Vec<u8>, EffectError>(
            EffectError::UnknownEffect,
        ),
        d.features@.contains_key(0x8071) && e is Some ==> r is Ok && reads_as(
            r->Ok_0@,
            d.devnum,
            d.features@[0x8071],
            0x11,
            block@,
        ),
{
    reveal_strlit("color_wave");
    reveal_strlit("ripple");
    assert("color_wave"@.len() == 10 && "ripple"@.len() == 6);
    if r is Ok {
        reveal_with_fuel(with_params, 1);
        let b = effect_block(id@, values@)->Some_0;
        lemma_block_len(id@, values@);
        calls_ask(d, *old(m), *final(m), 0x8071, 0x10, b, Some(r->Ok_0));
        assert(block@ == b);
    }
}

/// A block has fifteen bytes.
proof fn lemma_block_len(id: Seq<char>, values: Seq<EffectParam>)
    ensures
        effect_block(id, values) matches Some(b) ==> b.len() == 15,
{
    reveal_with_fuel(with_params, 4);
    let w = COLOR_WAVE_BASE;
    let p = RIPPLE_BASE;
    assert(w@.len() == 15 && p@.len() == 15);
}

/// Keys are set and shown through feature 0x8081: all of them as one range, then a commit;
/// their bitmap is asked for page by page.
pub proof fn keys_are_set_and_shown(
    d: Hidpp20,
    color: RgbColor,
    page: u8,
    m1: &mut HidppMessenger,
    m2: &mut HidppMessenger,
    m3: &mut HidppMessenger,
    all: Option<Vec<u8>>,
    commit: Option<Vec<u8>>,
    bitmap: Option<Vec<u8>>,
)
    requires
        call_ensures(Hidpp20::per_key_set_all, (&d, m1, color), all),
        call_ensures(Hidpp20::per_key_commit, (&d, m2), commit),
        call_ensures(Hidpp20::pk_led_page_request, (&d, m3, page), bitmap),
    ensures
        all is Some <==> d.features@.contains_key(0x8081),
        all matches Some(p) ==> p@[1] == d.devnum && p@[2] == d.features@[0x8081] && p@[3] == 0x51
            && p@[4] == 0x00 && p@[5] == 0xFF && p@[6] == color.r && p@[7] == color.g && p@[8]
            == color.b,
        asks(d, 0x8081, 0x71, seq![0u8], commit),
        asks(d, 0x8081, 0x01, seq![0u8, 0, page], bitmap),
{
    let params = all_keys_params(color);
    calls_ask(d, *old(m1), *final(m1), 0x8081, 0x50, params, all);
    if all is Some {
        let p = all->Some_0@;
        assert(p[4] == params[0] && p[5] == params[1] && p[6] == params[2] && p[7] == params[3]
            && p[8] == params[4]);
    }
    calls_ask(d, *old(m2), *final(m2), 0x8081, 0x70, seq![0u8], commit);
    calls_ask(d, *old(m3), *final(m3), 0x8081, 0x00, seq![0u8, 0, page], bitmap);
}

/// The LEDs of a mouse are the bits of its bitmap, which starts at the third byte of each
/// page and has thirteen bytes there.
pub proof fn leds_are_read_from_their_pages(replies: &[Option<Vec<u8>>], r: Vec<u8>, code: u8)
    requires
        call_ensures(Hidpp20::read_pk_led_ids, (replies,), r),
        replies@.len() > 0,
        replies@[0] is Some,
        replies@[0]->Some_0@.len() >= 15,
    ensures
        r@.contains(code) <==> 1 <= code < 32 && bit(
            replies@[0]->Some_0@[2 + code / 8] as nat,
            (code % 8) as nat,
        ),
{
    reveal_with_fuel(bitmap_pages, 4);
    let b = bitmap_pages(replies@, 3);
    listed_leds_are_set(b, 32, code);
    assert(b.len() == 39);
    assert(forall|k: int| 0 <= k < 13 ==> b[k] == replies@[0]->Some_0@[2 + k]);
}

/// Frames and single keys are encoded for the device under the index of feature 0x8081, and
/// for nothing without it.
pub proof fn frames_need_the_feature(
    d: Hidpp20,
    keys: &[(u8, RgbColor)],
    cache: &mut PkFrameCache,
    pairs: &[(u8, u8, u8, u8)],
    frame: Vec<Vec<u8>>,
    single: Vec<Vec<u8>>,
)
    requires
        call_ensures(Hidpp20::encode_per_key_frame, (&d, keys, cache), frame),
        call_ensures(Hidpp20::write_per_key_pairs, (&d, pairs), single),
    ensures
        !d.features@.contains_key(0x8081) ==> frame@.len() == 0 && single@.len() == 0,
        d.features@.contains_key(0x8081) ==> views(frame@) == frame_packets(
            keys@,
            old(cache).last@,
            d.devnum,
            d.features@[0x8081],
        ),
        pairs@.len() == 0 ==> single@.len() == 0,
        d.features@.contains_key(0x8081) && pairs@.len() > 0 ==> views(single@)
            == individual_packets(pairs@, d.devnum, d.features@[0x8081]).push(
            commit_packet(d.devnum, d.features@[0x8081]),
        ),
{
    assert(views(single@).len() == single@.len());
}

} // verus!
