//! Controls that can be diverted to the host, and events about those that are held.

use crate::bytes::{be16, bit, halves_add_up, hi_byte, lo_byte, nothing_is_halved, two, u16_be};
use crate::logitech::protocols::hidpp::byte_at;
use crate::logitech::protocols::hidpp::v2::feature::{
    GKEY, MOUSE_BUTTON_SPY, REPROG_CONTROLS_V4,
};
use crate::logitech::protocols::hidpp::v2::{asks, calls_ask, Hidpp20};
use crate::logitech::protocols::hidpp::HidppMessenger;
use crate::text::{hex, owned, push_hex};
use vstd::prelude::*;

verus! {

/// Asks for the number of controls.
pub const REPROG_GET_COUNT: u8 = 0x00;

/// Asks for one control.
pub const REPROG_GET_CID_INFO: u8 = 0x10;

/// Sets how a control is reported.
pub const REPROG_SET_CID_REPORTING: u8 = 0x30;

/// Asks for the number of G keys.
pub const GKEY_GET_COUNT: u8 = 0x00;

/// Gives the G keys to the host.
pub const GKEY_ENABLE_SW_CONTROL: u8 = 0x20;

/// Reports mouse buttons to the host.
pub const SPY_SET_STATE: u8 = 0x10;

/// One control: its id, its task, its flags and its group.
#[derive(Debug, Clone, Copy, PartialEq, Eq, Structural)]
pub struct CidInfo {
    pub cid: u16,
    pub task_id: u16,
    pub flags: u8,
    pub group: u8,
}

impl CidInfo {
    /// Whether the control can be diverted: bit 3 of its flags.
    pub fn divertable(&self) -> (r: bool)
        ensures
            r == ((self.flags / 8) % 2 == 1),
    {
        (self.flags / 8) % 2 == 1
    }
}

/// The name of a task.
pub open spec fn task_label(task_id: u16) -> Option<&'static str> {
    if task_id == 0x0038 {
        Some("Left Button")
    } else if task_id == 0x0039 {
        Some("Right Button")
    } else if task_id == 0x003A {
        Some("Middle Button")
    } else if task_id == 0x003B {
        Some("Back")
    } else if task_id == 0x003C {
        Some("Forward")
    } else if task_id == 0x00C7 {
        Some("DPI Down")
    } else if task_id == 0x00C8 {
        Some("DPI Up")
    } else if task_id == 0x00C9 {
        Some("DPI Cycle")
    } else if task_id == 0x00D0 {
        Some("DPI Shift")
    } else if task_id == 0x00D7 {
        Some("Smart Shift")
    } else if task_id == 0x0050 {
        Some("Volume Mute")
    } else if task_id == 0x0051 {
        Some("Volume Down")
    } else if task_id == 0x0052 {
        Some("Volume Up")
    } else {
        None
    }
}

/// The name of a control: that of its task, else its own, else its id.
pub open spec fn control_label(cid: u16, task_id: u16) -> Seq<char> {
    match task_label(task_id) {
        Some(label) => label@,
        None => if cid == 0x0056 {
            "Left Scroll"@
        } else if cid == 0x005D {
            "Right Scroll"@
        } else {
            "Button 0x"@ + hex(cid as nat, 4)
        },
    }
}

/// Names a control.
pub fn cid_label(cid: u16, task_id: u16) -> (r: String)
    ensures
        r@ == control_label(cid, task_id),
{
    match task_id {
        0x0038 => owned("Left Button"),
        0x0039 => owned("Right Button"),
        0x003A => owned("Middle Button"),
        0x003B => owned("Back"),
        0x003C => owned("Forward"),
        0x00C7 => owned("DPI Down"),
        0x00C8 => owned("DPI Up"),
        0x00C9 => owned("DPI Cycle"),
        0x00D0 => owned("DPI Shift"),
        0x00D7 => owned("Smart Shift"),
        0x0050 => owned("Volume Mute"),
        0x0051 => owned("Volume Down"),
        0x0052 => owned("Volume Up"),
        _ => match cid {
            0x0056 => owned("Left Scroll"),
            0x005D => owned("Right Scroll"),
            _ => {
                let mut label: String = owned("Button 0x");
                push_hex(&mut label, cid as u64, 4);
                label
            },
        },
    }
}

/// The numbers of the bits set among the lowest `n`, counted from 1.
pub open spec fn set_bits(bitmap: nat, n: nat) -> Seq<u16>
    decreases n,
{
    if n == 0 {
        Seq::empty()
    } else {
        let below = set_bits(bitmap, (n - 1) as nat);
        if bit(bitmap, (n - 1) as nat) {
            below.push(n as u16)
        } else {
            below
        }
    }
}

/// Reads held controls from a bitmap: control `n` is bit `n - 1`.
pub fn button_bitmap_to_cids(bitmap: u16) -> (r: Vec<u16>)
    ensures
        r@ == set_bits(bitmap as nat, 16),
{
    let mut out: Vec<u16> = Vec::new();
    let mut rest: u16 = bitmap;
    let mut i: u16 = 0;
    proof {
        nothing_is_halved(bitmap as nat);
    }
    while i < 16
        invariant
            i <= 16,
            rest == bitmap as nat / two(i as nat),
            out@ == set_bits(bitmap as nat, i as nat),
        decreases 16 - i,
    {
        if rest % 2 == 1 {
            out.push(i + 1);
        }
        proof {
            halves_add_up(bitmap as nat, i as nat);
        }
        rest = rest / 2;
        i = i + 1;
    }
    out
}

/// The controls in the first `n` pairs of an event; zeros fill it up.
pub open spec fn held_controls(data: Seq<u8>, n: nat) -> Seq<u16>
    decreases n,
{
    if n == 0 {
        Seq::empty()
    } else {
        let before = held_controls(data, (n - 1) as nat);
        let cid = be16(data[2 * n - 2], data[2 * n - 1]);
        if cid == 0 {
            before
        } else {
            before.push(cid as u16)
        }
    }
}

/// Reads held controls from an event; a last byte without a partner is dropped.
pub fn parse_diverted_buttons_event(data: &[u8]) -> (r: Vec<u16>)
    ensures
        r@ == held_controls(data@, data@.len() / 2),
{
    let n: usize = data.len() / 2;
    let mut out: Vec<u16> = Vec::new();
    let mut i: usize = 0;
    while i < n
        invariant
            i <= n,
            2 * n <= data@.len() <= usize::MAX,
            out@ == held_controls(data@, i as nat),
        decreases n - i,
    {
        let cid: u16 = u16_be(data[2 * i], data[2 * i + 1]);
        if cid != 0 {
            out.push(cid);
        }
        i = i + 1;
    }
    out
}

/// Reads held controls from an event with a bitmap, least significant byte first; missing
/// bytes are zero.
pub fn parse_button_bitmap_event(data: &[u8]) -> (r: Vec<u16>)
    ensures
        r@ == set_bits((byte_at(data@, 0) as int + 256 * byte_at(data@, 1) as int) as nat, 16),
{
    let lo: u8 = if data.len() > 0 {
        data[0]
    } else {
        0
    };
    let hi: u8 = if data.len() > 1 {
        data[1]
    } else {
        0
    };
    button_bitmap_to_cids(u16_be(hi, lo))
}

/// The control in a reply.
pub open spec fn cid_info_in(reply: Seq<u8>) -> Option<CidInfo> {
    if reply.len() < 8 {
        None
    } else {
        Some(
            CidInfo {
                cid: be16(reply[0], reply[1]) as u16,
                task_id: be16(reply[2], reply[3]) as u16,
                flags: reply[4],
                group: reply[6],
            },
        )
    }
}

/// Reads a control from a reply.
pub fn parse_cid_info(reply: &[u8]) -> (r: Option<CidInfo>)
    ensures
        r == cid_info_in(reply@),
{
    if reply.len() < 8 {
        return None;
    }
    Some(
        CidInfo {
            cid: u16_be(reply[0], reply[1]),
            task_id: u16_be(reply[2], reply[3]),
            flags: reply[4],
            group: reply[6],
        },
    )
}

/// The parameters that set whether a control is diverted.
pub open spec fn reporting_params(cid: u16, diverted: bool) -> Seq<u8> {
    Seq::new(
        16,
        |i: int|
            if i == 0 {
                (cid / 256) as u8
            } else if i == 1 {
                (cid % 256) as u8
            } else if i == 2 && diverted {
                1
            } else {
                0
            },
    )
}

/// Encodes whether a control is diverted.
pub fn encode_set_cid_reporting(cid: u16, diverted: bool) -> (r: [u8; 16])
    ensures
        r@ == reporting_params(cid, diverted),
{
    let mut r: [u8; 16] = [0u8; 16];
    r[0] = hi_byte(cid);
    r[1] = lo_byte(cid);
    r[2] = if diverted {
        0x01
    } else {
        0x00
    };
    proof {
        assert(r@ =~= reporting_params(cid, diverted));
    }
    r
}

/// The count in a reply; 0 where the question failed.
pub open spec fn reported_count(reply: Option<Seq<u8>>) -> u8 {
    match reply {
        Some(data) => byte_at(data, 0),
        None => 0,
    }
}

/// The count in a reply; 0 where the question failed.
fn count_in(reply: Option<&[u8]>) -> (r: u8)
    ensures
        r == reported_count(
            match reply {
                Some(data) => Some(data@),
                None => None,
            },
        ),
{
    match reply {
        Some(data) => if data.len() > 0 {
            data[0]
        } else {
            0
        },
        None => 0,
    }
}

impl Hidpp20 {
    /// How many controls can be diverted, out of the reply to that question; 0 where it
    /// failed or was not asked.
    pub fn reprog_control_count(reply: Option<&[u8]>) -> (r: u8)
        ensures
            r == reported_count(
                match reply {
                    Some(data) => Some(data@),
                    None => None,
                },
            ),
    {
        count_in(reply)
    }

    /// How many G keys there are, out of the reply to that question; 0 where it failed or
    /// was not asked.
    pub fn gkey_count(reply: Option<&[u8]>) -> (r: u8)
        ensures
            r == reported_count(
                match reply {
                    Some(data) => Some(data@),
                    None => None,
                },
            ),
    {
        count_in(reply)
    }
}

impl Hidpp20 {
    /// The control in a reply; none where the question failed.
    pub fn reprog_control_info(reply: Option<&[u8]>) -> (r: Option<CidInfo>)
        ensures
            r == match reply {
                Some(data) => cid_info_in(data@),
                None => None,
            },
    {
        match reply {
            Some(data) => parse_cid_info(data),
            None => None,
        }
    }
}

/// A flag as a parameter.
pub open spec fn flag_byte(on: bool) -> u8 {
    if on {
        1
    } else {
        0
    }
}

impl Hidpp20 {
    /// Asks for the number of controls.
    pub fn reprog_count_request(&self, msg: &mut HidppMessenger) -> (r: Option<Vec<u8>>)
        ensures
            self.calls(
                *old(msg),
                *final(msg),
                REPROG_CONTROLS_V4,
                REPROG_GET_COUNT,
                Seq::empty(),
                r,
            ),
    {
        self.request_plain(msg, REPROG_CONTROLS_V4, REPROG_GET_COUNT)
    }

    /// Asks for one control.
    pub fn reprog_info_request(&self, msg: &mut HidppMessenger, i: u8) -> (r: Option<Vec<u8>>)
        ensures
            self.calls(
                *old(msg),
                *final(msg),
                REPROG_CONTROLS_V4,
                REPROG_GET_CID_INFO,
                seq![i],
                r,
            ),
    {
        self.request_byte(msg, REPROG_CONTROLS_V4, REPROG_GET_CID_INFO, i)
    }

    /// Sets whether a control is diverted.
    pub fn set_cid_reporting(&self, msg: &mut HidppMessenger, cid: u16, diverted: bool) -> (r:
        Option<Vec<u8>>)
        ensures
            self.calls(
                *old(msg),
                *final(msg),
                REPROG_CONTROLS_V4,
                REPROG_SET_CID_REPORTING,
                reporting_params(cid, diverted),
                r,
            ),
    {
        let params: [u8; 16] = encode_set_cid_reporting(cid, diverted);
        self.request(msg, REPROG_CONTROLS_V4, REPROG_SET_CID_REPORTING, &params)
    }

    /// Asks for the number of G keys.
    pub fn gkey_count_request(&self, msg: &mut HidppMessenger) -> (r: Option<Vec<u8>>)
        ensures
            self.calls(*old(msg), *final(msg), GKEY, GKEY_GET_COUNT, Seq::empty(), r),
    {
        self.request_plain(msg, GKEY, GKEY_GET_COUNT)
    }

    /// Sets whether the host has the G keys.
    pub fn set_gkey_software_control(&self, msg: &mut HidppMessenger, enabled: bool) -> (r: Option<
        Vec<u8>,
    >)
        ensures
            self.calls(
                *old(msg),
                *final(msg),
                GKEY,
                GKEY_ENABLE_SW_CONTROL,
                seq![flag_byte(enabled)],
                r,
            ),
    {
        let on: u8 = if enabled {
            1
        } else {
            0
        };
        self.request_byte(msg, GKEY, GKEY_ENABLE_SW_CONTROL, on)
    }

    /// Sets whether mouse buttons are reported to the host.
    pub fn set_mouse_button_spy(&self, msg: &mut HidppMessenger, enabled: bool) -> (r: Option<
        Vec<u8>,
    >)
        ensures
            self.calls(
                *old(msg),
                *final(msg),
                MOUSE_BUTTON_SPY,
                SPY_SET_STATE,
                seq![flag_byte(enabled)],
                r,
            ),
    {
        let on: u8 = if enabled {
            1
        } else {
            0
        };
        self.request_byte(msg, MOUSE_BUTTON_SPY, SPY_SET_STATE, on)
    }
}

/// The bitmap that a list of controls stands for.
pub open spec fn bitmap_of(cids: Seq<u16>) -> nat
    decreases cids.len(),
{
    if cids.len() == 0 {
        0
    } else {
        bitmap_of(cids.drop_last()) + two((cids.last() - 1) as nat)
    }
}

/// The lowest `n` bits of a bitmap.
proof fn lemma_bitmap(bitmap: nat, n: nat)
    requires
        n <= 16,
    ensures
        bitmap_of(set_bits(bitmap, n)) == bitmap % two(n),
        two(n) > 0,
        bitmap == (bitmap / two(n)) * two(n) + bitmap % two(n),
    decreases n,
{
    if n == 0 {
        assert(bitmap % 1 == 0);
        assert(bitmap == (bitmap / 1) * 1 + bitmap % 1);
    } else {
        let m = (n - 1) as nat;
        lemma_bitmap(bitmap, m);
        halves_add_up(bitmap, m);
        let t = two(m);
        let q = bitmap / t;
        let low = bitmap % t;
        assert(two(n) == 2 * t);
        assert(q == 2 * (q / 2) + q % 2);
        let s = set_bits(bitmap, n);
        if bit(bitmap, m) {
            assert(s.drop_last() =~= set_bits(bitmap, m));
        }
        let top: nat = if bit(bitmap, m) {
            t
        } else {
            0
        };
        assert(bitmap == (q / 2) * (2 * t) + (top + low) && top + low < 2 * t) by (nonlinear_arith)
            requires
                bitmap == q * t + low,
                q == 2 * (q / 2) + q % 2,
                low < t,
                q % 2 == 1 ==> top == t,
                q % 2 != 1 ==> top == 0,
        ;
        vstd::arithmetic::div_mod::lemma_fundamental_div_mod_converse(
            bitmap as int,
            (2 * t) as int,
            (q / 2) as int,
            (top + low) as int,
        );
    }
}

/// Held controls and bitmaps say the same: the bitmap can be put together again from the
/// controls read from it.
pub proof fn bitmaps_and_controls_agree(bitmap: u16)
    ensures
        bitmap_of(set_bits(bitmap as nat, 16)) == bitmap,
{
    lemma_bitmap(bitmap as nat, 16);
    assert(two(16) == 65536) by {
        reveal_with_fuel(two, 17);
    }
}

/// Controls are counted, described and diverted through feature 0x1B04, G keys given to the
/// host through 0x8010, and mouse buttons reported through 0x8110.
pub proof fn controls_are_asked_for_and_diverted(
    d: Hidpp20,
    i: u8,
    cid: u16,
    on: bool,
    m1: &mut HidppMessenger,
    m2: &mut HidppMessenger,
    m3: &mut HidppMessenger,
    m4: &mut HidppMessenger,
    m5: &mut HidppMessenger,
    m6: &mut HidppMessenger,
    count: Option<Vec<u8>>,
    info: Option<Vec<u8>>,
    divert: Option<Vec<u8>>,
    gkeys: Option<Vec<u8>>,
    control: Option<Vec<u8>>,
    spy: Option<Vec<u8>>,
)
    requires
        call_ensures(Hidpp20::reprog_count_request, (&d, m1), count),
        call_ensures(Hidpp20::reprog_info_request, (&d, m2, i), info),
        call_ensures(Hidpp20::set_cid_reporting, (&d, m3, cid, on), divert),
        call_ensures(Hidpp20::gkey_count_request, (&d, m4), gkeys),
        call_ensures(Hidpp20::set_gkey_software_control, (&d, m5, on), control),
        call_ensures(Hidpp20::set_mouse_button_spy, (&d, m6, on), spy),
    ensures
        asks(d, 0x1B04, 0x01, Seq::empty(), count),
        asks(d, 0x1B04, 0x11, seq![i], info),
        divert is Some <==> d.features@.contains_key(0x1B04),
        divert matches Some(p) ==> p@.len() == 20 && p@[1] == d.devnum && p@[2]
            == d.features@[0x1B04] && p@[3] == 0x31 && 256 * p@[4] + p@[5] == cid && p@[6] == (if on {
            1u8
        } else {
            0u8
        }) && forall|k: int| 7 <= k < 20 ==> #[trigger] p@[k] == 0,
        asks(d, 0x8010, 0x01, Seq::empty(), gkeys),
        asks(d, 0x8010, 0x21, seq![if on { 1u8 } else { 0u8 }], control),
        asks(d, 0x8110, 0x11, seq![if on { 1u8 } else { 0u8 }], spy),
{
    calls_ask(d, *old(m1), *final(m1), 0x1B04, 0x00, Seq::empty(), count);
    calls_ask(d, *old(m2), *final(m2), 0x1B04, 0x10, seq![i], info);
    let params = reporting_params(cid, on);
    calls_ask(d, *old(m3), *final(m3), 0x1B04, 0x30, params, divert);
    if divert is Some {
        let p = divert->Some_0@;
        assert(p[4] == params[0] && p[5] == params[1] && p[6] == params[2]);
        assert forall|k: int| 7 <= k < 20 implies #[trigger] p[k] == 0 by {
            assert(p[4 + (k - 4)] == params[k - 4]);
        }
    }
    calls_ask(d, *old(m4), *final(m4), 0x8010, 0x00, Seq::empty(), gkeys);
    calls_ask(d, *old(m5), *final(m5), 0x8010, 0x20, seq![flag_byte(on)], control);
    calls_ask(d, *old(m6), *final(m6), 0x8110, 0x10, seq![flag_byte(on)], spy);
}

/// A diversion names its control, high byte first, and then one or zero.
pub proof fn diversions_name_their_control(cid: u16, diverted: bool, r: [u8; 16], i: int)
    requires
        call_ensures(encode_set_cid_reporting, (cid, diverted), r),
        3 <= i < 16,
    ensures
        256 * r@[0] + r@[1] == cid,
        r@[2] == (if diverted {
            1u8
        } else {
            0u8
        }),
        r@[i] == 0,
{
}

/// A control is described by its id, its task, its flags and its group, and can be diverted
/// where bit 3 of the flags is set.
pub proof fn controls_are_described(reply: &[u8], r: Option<CidInfo>, s: Option<CidInfo>, can: bool)
    requires
        call_ensures(parse_cid_info, (reply,), r),
        call_ensures(Hidpp20::reprog_control_info, (Some(reply),), s),
        r is Some ==> call_ensures(CidInfo::divertable, (&r->Some_0,), can),
    ensures
        s == r,
        r is Some <==> reply@.len() >= 8,
        r matches Some(c) ==> {
            &&& c.cid == 256 * reply@[0] + reply@[1]
            &&& c.task_id == 256 * reply@[2] + reply@[3]
            &&& c.flags == reply@[4]
            &&& c.group == reply@[6]
            &&& can <==> reply@[4] & 8 == 8
        },
{
    if r is Some {
        let f = reply@[4];
        assert(f & 8 == 8 <==> (f / 8) % 2 == 1) by (bit_vector);
    }
}

/// Counts are the first byte of their reply; without one there are none.
pub proof fn control_counts_are_the_first_byte(
    reply: &[u8],
    controls: u8,
    gkeys: u8,
    no_controls: u8,
    no_gkeys: u8,
)
    requires
        call_ensures(Hidpp20::reprog_control_count, (Some(reply),), controls),
        call_ensures(Hidpp20::gkey_count, (Some(reply),), gkeys),
        call_ensures(Hidpp20::reprog_control_count, (None::<&[u8]>,), no_controls),
        call_ensures(Hidpp20::gkey_count, (None::<&[u8]>,), no_gkeys),
    ensures
        reply@.len() > 0 ==> controls == reply@[0] && gkeys == reply@[0],
        reply@.len() == 0 ==> controls == 0 && gkeys == 0,
        no_controls == 0 && no_gkeys == 0,
{
}

/// Control `n` is held exactly where bit `n - 1` of the bitmap is set; controls are listed
/// from the lowest on.
pub proof fn held_controls_are_the_set_bits(bitmap: u16, r: Vec<u16>, n: u16)
    requires
        call_ensures(button_bitmap_to_cids, (bitmap,), r),
    ensures
        r@.contains(n) <==> 1 <= n <= 16 && bit(bitmap as nat, (n - 1) as nat),
        forall|i: int, j: int| 0 <= i < j < r@.len() ==> #[trigger] r@[i] < #[trigger] r@[j],
{
    lemma_set_bits(bitmap as nat, 16, n);
}

/// The bits set among the lowest `k`.
proof fn lemma_set_bits(bitmap: nat, k: nat, n: u16)
    requires
        k <= 16,
    ensures
        set_bits(bitmap, k).contains(n) <==> 1 <= n <= k && bit(bitmap, (n - 1) as nat),
        forall|i: int| 0 <= i < set_bits(bitmap, k).len() ==> #[trigger] set_bits(bitmap, k)[i] <= k,
        forall|i: int, j: int|
            0 <= i < j < set_bits(bitmap, k).len() ==> #[trigger] set_bits(bitmap, k)[i]
                < #[trigger] set_bits(bitmap, k)[j],
    decreases k,
{
    if k > 0 {
        let below = set_bits(bitmap, (k - 1) as nat);
        let all = set_bits(bitmap, k);
        lemma_set_bits(bitmap, (k - 1) as nat, n);
        if bit(bitmap, (k - 1) as nat) {
            assert(all == below.push(k as u16));
            if below.contains(n) {
                let i = choose|i: int| 0 <= i < below.len() && below[i] == n;
                assert(all[i] == n);
            }
            if n == k {
                assert(all[below.len() as int] == n);
            }
            if all.contains(n) && n != k {
                let i = choose|i: int| 0 <= i < all.len() && all[i] == n;
                assert(below[i] == n);
            }
        }
    }
}

/// An event with a bitmap is read low byte first, as the bitmap is.
pub proof fn bitmaps_come_low_byte_first(data: &[u8], r: Vec<u16>, s: Vec<u16>)
    requires
        data@.len() >= 2,
        call_ensures(parse_button_bitmap_event, (data,), r),
        call_ensures(button_bitmap_to_cids, ((data@[0] + 256 * data@[1]) as u16,), s),
    ensures
        r@ == s@,
{
}

/// An event lists the held controls as pairs of bytes, high byte first; zeros are no
/// controls.
pub proof fn held_controls_are_listed(data: &[u8], r: Vec<u16>, n: u16)
    requires
        call_ensures(parse_diverted_buttons_event, (data,), r),
    ensures
        r@.contains(n) <==> n > 0 && exists|k: int|
            #![trigger data@[2 * k]]
            0 <= k < data@.len() / 2 && 256 * data@[2 * k] + data@[2 * k + 1] == n,
        r@.len() <= data@.len() / 2,
{
    lemma_held(data@, data@.len() / 2, n);
}

/// The controls in the first `m` pairs.
proof fn lemma_held(data: Seq<u8>, m: nat, n: u16)
    requires
        2 * m <= data.len(),
    ensures
        held_controls(data, m).contains(n) <==> n > 0 && exists|k: int|
            #![trigger data[2 * k]]
            0 <= k < m && 256 * data[2 * k] + data[2 * k + 1] == n,
        held_controls(data, m).len() <= m,
    decreases m,
{
    if m > 0 {
        let before = held_controls(data, (m - 1) as nat);
        let all = held_controls(data, m);
        lemma_held(data, (m - 1) as nat, n);
        let last = 256 * data[2 * (m - 1)] + data[2 * (m - 1) + 1];
        if before.contains(n) {
            let i = choose|i: int| 0 <= i < before.len() && before[i] == n;
            assert(all[i] == n);
        }
        if last != 0 && last == n {
            assert(all[before.len() as int] == n);
        }
        if all.contains(n) && !before.contains(n) {
            let i = choose|i: int| 0 <= i < all.len() && all[i] == n;
            if i < before.len() {
                assert(before[i] == n);
            }
        }
        if n > 0 && exists|k: int|
            #![trigger data[2 * k]]
            0 <= k < m && 256 * data[2 * k] + data[2 * k + 1] == n {
            let k = choose|k: int|
                #![trigger data[2 * k]]
                0 <= k < m && 256 * data[2 * k] + data[2 * k + 1] == n;
            if k < m - 1 {
                assert(before.contains(n));
            }
        }
    }
}

/// A control is named after its task where that has a name.
pub proof fn controls_are_named_after_their_task(cid: u16, task_id: u16, r: String)
    requires
        call_ensures(cid_label, (cid, task_id), r),
    ensures
        task_id == 0x38 ==> r@ == "Left Button"@,
        task_id == 0x39 ==> r@ == "Right Button"@,
        task_id == 0x3A ==> r@ == "Middle Button"@,
        task_id == 0x3B ==> r@ == "Back"@,
        task_id == 0x3C ==> r@ == "Forward"@,
        task_id == 0x50 ==> r@ == "Volume Mute"@,
        task_id == 0x51 ==> r@ == "Volume Down"@,
        task_id == 0x52 ==> r@ == "Volume Up"@,
        task_id == 0xC7 ==> r@ == "DPI Down"@,
        task_id == 0xC8 ==> r@ == "DPI Up"@,
        task_id == 0xC9 ==> r@ == "DPI Cycle"@,
        task_id == 0xD0 ==> r@ == "DPI Shift"@,
        task_id == 0xD7 ==> r@ == "Smart Shift"@,
        task_id < 0x38 && cid == 0x56 ==> r@ == "Left Scroll"@,
        task_id < 0x38 && cid == 0x5D ==> r@ == "Right Scroll"@,
        (task_id < 0x38 || 0x3C < task_id < 0x50 || 0x52 < task_id < 0xC7 || 0xC9 < task_id < 0xD0
            || 0xD0 < task_id < 0xD7 || task_id > 0xD7) && cid != 0x56 && cid != 0x5D ==> r@
            == "Button 0x"@ + hex(cid as nat, 4),
{
}

} // verus!
