//! What the Control Hub and the Kraken have in common: the firmware query and the
//! accessory scan.

use crate::rgb::RgbColor;
use crate::text::{decimal, push_decimal};
use vstd::prelude::*;

verus! {

/// Asks for the firmware version.
pub const FW_REQUEST: [u8; 2] = [0x10, 0x02];

/// Prefix of the firmware reply.
pub const FW_REPLY: [u8; 2] = [0x11, 0x02];

/// Asks for the accessories on all channels.
pub const ACCESSORY_REQUEST: [u8; 2] = [0x20, 0x03];

/// Prefix of the accessory reply.
pub const ACCESSORY_REPLY: [u8; 2] = [0x21, 0x03];

/// How many reports are searched for a firmware reply.
pub const FW_REPLY_READS: usize = 8;

/// How many reports are searched for an accessory reply.
pub const ACCESSORY_REPLY_READS: usize = 16;

/// Slots per channel in an accessory reply.
pub const MAX_ACCESSORIES_PER_CHANNEL: usize = 6;

/// An accessory on a channel.
#[derive(Debug, Clone, Copy, PartialEq, Eq, Structural)]
pub struct AccessoryInfo {
    pub channel_id: u8,
    pub accessory_id: u8,
}

/// Whether a report starts with the two bytes of `prefix`.
pub open spec fn starts_with(pkt: Seq<u8>, prefix: Seq<u8>) -> bool {
    pkt.len() >= 2 && pkt[0] == prefix[0] && pkt[1] == prefix[1]
}

/// Whether a report starts with the two bytes of `prefix`.
pub fn has_prefix(pkt: &[u8], prefix: [u8; 2]) -> (r: bool)
    ensures
        r == starts_with(pkt@, prefix@),
{
    pkt.len() >= 2 && pkt[0] == prefix[0] && pkt[1] == prefix[1]
}

/// The first of the reports from position `i` on that starts with `prefix`, among the
/// first `reads`.
pub open spec fn reply_from(
    reports: Seq<Vec<u8>>,
    prefix: Seq<u8>,
    reads: nat,
    i: nat,
) -> Option<Seq<u8>>
    decreases reports.len() - i,
{
    if i >= reports.len() || i >= reads {
        None
    } else if starts_with(reports[i as int]@, prefix) {
        Some(reports[i as int]@)
    } else {
        reply_from(reports, prefix, reads, i + 1)
    }
}

/// The position of the first report that starts with `prefix`, among the first `reads`.
fn find_reply(reports: &[Vec<u8>], prefix: [u8; 2], reads: usize) -> (r: Option<usize>)
    ensures
        match reply_from(reports@, prefix@, reads as nat, 0) {
            Some(p) => r is Some && r->Some_0 < reports@.len() && reports@[r->Some_0 as int]@ == p,
            None => r is None,
        },
{
    let mut i: usize = 0;
    while i < reports.len() && i < reads
        invariant
            i <= reports@.len(),
            i <= reads,
            reply_from(reports@, prefix@, reads as nat, 0) == reply_from(
                reports@,
                prefix@,
                reads as nat,
                i as nat,
            ),
        decreases reports@.len() - i,
    {
        if has_prefix(reports[i].as_slice(), prefix) {
            return Some(i);
        }
        i = i + 1;
    }
    None
}

/// The version text of a firmware reply; empty where there was no reply or it is short.
pub open spec fn version_text(reply: Option<Seq<u8>>) -> Seq<char> {
    match reply {
        Some(p) => if p.len() > 0x13 {
            decimal(p[0x11] as nat) + "."@ + decimal(p[0x12] as nat) + "."@ + decimal(
                p[0x13] as nat,
            )
        } else {
            Seq::empty()
        },
        None => Seq::empty(),
    }
}

/// How many channels an accessory reply covers.
pub open spec fn accessory_channels(msg: Seq<u8>) -> nat {
    if msg.len() > 14 {
        if msg[14] < 8 {
            msg[14] as nat
        } else {
            8
        }
    } else {
        0
    }
}

/// The first id other than zero in the slots of a channel from slot `from` on; zero if
/// all of them are empty or the reply ends before them.
pub open spec fn id_from(msg: Seq<u8>, channel: int, from: nat) -> u8
    decreases MAX_ACCESSORIES_PER_CHANNEL - from,
{
    let offset = 15 + channel * MAX_ACCESSORIES_PER_CHANNEL + from;
    if from >= MAX_ACCESSORIES_PER_CHANNEL || offset >= msg.len() {
        0
    } else if msg[offset] != 0 {
        msg[offset]
    } else {
        id_from(msg, channel, from + 1)
    }
}

/// The accessory on a channel: the first id other than zero in its slots. Zero means
/// that there is none.
pub open spec fn channel_accessory(msg: Seq<u8>, channel: int) -> u8 {
    id_from(msg, channel, 0)
}

/// The accessory on a channel; zero if there is none.
fn find_accessory(msg: &[u8], channel: usize) -> (r: u8)
    requires
        channel < 8,
    ensures
        r == channel_accessory(msg@, channel as int),
{
    let start: usize = 15 + channel * MAX_ACCESSORIES_PER_CHANNEL;
    let mut slot: usize = 0;
    while slot < MAX_ACCESSORIES_PER_CHANNEL && start + slot < msg.len()
        invariant
            channel < 8,
            start == 15 + channel * MAX_ACCESSORIES_PER_CHANNEL,
            slot <= MAX_ACCESSORIES_PER_CHANNEL,
            id_from(msg@, channel as int, slot as nat) == channel_accessory(msg@, channel as int),
        decreases MAX_ACCESSORIES_PER_CHANNEL - slot,
    {
        if msg[start + slot] != 0 {
            return msg[start + slot];
        }
        slot = slot + 1;
    }
    0
}

/// The accessories on the first `n` channels: one per channel with a taken slot.
pub open spec fn accessories_below(msg: Seq<u8>, n: nat) -> Seq<AccessoryInfo>
    decreases n,
{
    if n == 0 {
        Seq::empty()
    } else {
        let before = accessories_below(msg, (n - 1) as nat);
        let id = channel_accessory(msg, n - 1);
        if id != 0 {
            before.push(AccessoryInfo { channel_id: (n - 1) as u8, accessory_id: id })
        } else {
            before
        }
    }
}

/// The part of the wire protocol that NZXT devices share.
#[derive(Debug, Clone, Copy)]
pub struct NzxtBaseProtocol;

impl NzxtBaseProtocol {
    /// The shared command set.
    pub fn new() -> (r: Self)
        ensures
            r == NzxtBaseProtocol,
    {
        NzxtBaseProtocol
    }

    /// The firmware version out of the reports read after `FW_REQUEST`; reports of other
    /// kinds are skipped.
    pub fn get_firmware_version(&self, reports: &[Vec<u8>]) -> (r: String)
        ensures
            r@ == version_text(reply_from(reports@, FW_REPLY@, FW_REPLY_READS as nat, 0)),
    {
        let mut out = String::new();
        if let Some(i) = find_reply(reports, FW_REPLY, FW_REPLY_READS) {
            let pkt = &reports[i];
            if pkt.len() > 0x13 {
                push_decimal(&mut out, pkt[0x11] as u64);
                out.append(".");
                push_decimal(&mut out, pkt[0x12] as u64);
                out.append(".");
                push_decimal(&mut out, pkt[0x13] as u64);
                proof {
                    assert(out@ =~= version_text(Some(pkt@)));
                }
            }
        }
        out
    }

    /// The accessories out of the reports read after `ACCESSORY_REQUEST`; reports of other
    /// kinds are skipped. The channel count is at byte 14, the slots start at byte 15.
    /// Each channel has six slots, of which the first taken one counts.
    pub fn detect_accessories(&self, reports: &[Vec<u8>]) -> (r: Vec<AccessoryInfo>)
        ensures
            match reply_from(reports@, ACCESSORY_REPLY@, ACCESSORY_REPLY_READS as nat, 0) {
                Some(p) => r@ == accessories_below(p, accessory_channels(p)),
                None => r@.len() == 0,
            },
    {
        let mut out: Vec<AccessoryInfo> = Vec::new();
        if let Some(i) = find_reply(reports, ACCESSORY_REPLY, ACCESSORY_REPLY_READS) {
            let msg = &reports[i];
            let count: usize = if msg.len() > 14 {
                if msg[14] < 8 {
                    msg[14] as usize
                } else {
                    8
                }
            } else {
                0
            };
            let mut ch: usize = 0;
            while ch < count
                invariant
                    ch <= count <= 8,
                    out@ == accessories_below(msg@, ch as nat),
                decreases count - ch,
            {
                let id: u8 = find_accessory(msg.as_slice(), ch);
                if id != 0 {
                    out.push(AccessoryInfo { channel_id: ch as u8, accessory_id: id });
                }
                ch = ch + 1;
            }
        }
        out
    }
}

/// Channel `k` of a colour in wire order: green, red, blue.
pub open spec fn grb_channel(c: RgbColor, k: int) -> u8 {
    if k == 0 {
        c.g
    } else if k == 1 {
        c.r
    } else {
        c.b
    }
}

/// Colours as GRB triples.
pub open spec fn grb_bytes(colors: Seq<RgbColor>) -> Seq<u8> {
    Seq::new(3 * colors.len(), |i: int| grb_channel(colors[i / 3], i % 3))
}

/// Appends colours as GRB triples.
pub fn push_grb(out: &mut Vec<u8>, colors: &[RgbColor])
    ensures
        final(out)@ == old(out)@ + grb_bytes(colors@),
{
    let mut i: usize = 0;
    proof {
        assert(out@ =~= old(out)@ + grb_bytes(colors@.take(0)));
    }
    while i < colors.len()
        invariant
            i <= colors@.len(),
            out@ == old(out)@ + grb_bytes(colors@.take(i as int)),
        decreases colors@.len() - i,
    {
        let c: RgbColor = colors[i];
        let ghost before = out@;
        out.push(c.g);
        out.push(c.r);
        out.push(c.b);
        proof {
            let a = colors@.take(i as int);
            let b = colors@.take(i + 1);
            assert forall|k: int| 0 <= k < 3 * i implies grb_bytes(b)[k] == grb_bytes(a)[k] by {
                assert(b[k / 3] == a[k / 3]);
            }
            assert(out@ =~= old(out)@ + grb_bytes(b));
        }
        i = i + 1;
    }
    proof {
        assert(colors@.take(i as int) =~= colors@);
    }
}

/// Accessory replies list each channel at most once, in rising order, and no empty slot.
pub proof fn accessories_are_ordered(msg: Seq<u8>, n: nat)
    requires
        n <= 8,
    ensures
        ({
            let a = accessories_below(msg, n);
            &&& a.len() <= n
            &&& forall|i: int, j: int|
                0 <= i < j < a.len() ==> (#[trigger] a[i]).channel_id < (#[trigger] a[j]).channel_id
            &&& forall|i: int|
                0 <= i < a.len() ==> (#[trigger] a[i]).accessory_id != 0 && a[i].channel_id < n
        }),
    decreases n,
{
    if n > 0 {
        accessories_are_ordered(msg, (n - 1) as nat);
    }
}

/// A prefix matches a report of two bytes or more that begins with both of its bytes.
pub proof fn prefixes_are_the_first_two_bytes(pkt: &[u8], prefix: [u8; 2], r: bool)
    requires
        call_ensures(has_prefix, (pkt, prefix), r),
    ensures
        r <==> pkt@.len() >= 2 && pkt@[0] == prefix@[0] && pkt@[1] == prefix@[1],
{
}

/// The first report that starts with `a`, `b` is the one that is found, where it is
/// within reach; where no report in reach does, none is found.
proof fn lemma_reply(reports: Seq<Vec<u8>>, prefix: Seq<u8>, reads: nat, k: int, from: nat)
    requires
        from <= k <= reports.len(),
        k <= reads,
        forall|j: int| from <= j < k ==> !starts_with((#[trigger] reports[j])@, prefix),
    ensures
        k < reports.len() && k < reads && starts_with(reports[k]@, prefix) ==> reply_from(
            reports,
            prefix,
            reads,
            from,
        ) == Some(reports[k]@),
        k == reports.len() || k == reads ==> reply_from(reports, prefix, reads, from) is None,
    decreases k - from,
{
    if from < k {
        assert(!starts_with(reports[from as int]@, prefix));
        lemma_reply(reports, prefix, reads, k, from + 1);
    }
}

/// The first of the eight reports read that begins with `11 02` gives the firmware
/// version: bytes 17, 18 and 19 in decimal, with points between them. What it has before
/// and after them does not matter. A reply that ends before them gives no version.
pub proof fn versions_are_three_numbers(
    d: NzxtBaseProtocol,
    reports: &[Vec<u8>],
    r: String,
    k: int,
)
    requires
        call_ensures(NzxtBaseProtocol::get_firmware_version, (&d, reports), r),
        0 <= k < 8,
        k < reports@.len(),
        reports@[k]@.len() >= 2,
        reports@[k]@[0] == 0x11,
        reports@[k]@[1] == 0x02,
        forall|j: int|
            0 <= j < k ==> {
                let p = (#[trigger] reports@[j])@;
                p.len() < 2 || p[0] != 0x11 || p[1] != 0x02
            },
    ensures
        reports@[k]@.len() >= 20 ==> r@ == decimal(reports@[k]@[17] as nat) + "."@ + decimal(
            reports@[k]@[18] as nat,
        ) + "."@ + decimal(reports@[k]@[19] as nat),
        reports@[k]@.len() < 20 ==> r@.len() == 0,
{
    lemma_reply(reports@, FW_REPLY@, 8, k, 0);
}

/// Where none of the first eight reports begins with `11 02`, no version is known.
pub proof fn versions_need_a_reply(d: NzxtBaseProtocol, reports: &[Vec<u8>], r: String)
    requires
        call_ensures(NzxtBaseProtocol::get_firmware_version, (&d, reports), r),
        forall|j: int|
            0 <= j < 8 && j < reports@.len() ==> {
                let p = (#[trigger] reports@[j])@;
                p.len() < 2 || p[0] != 0x11 || p[1] != 0x02
            },
    ensures
        r@.len() == 0,
{
    let k: int = if reports@.len() < 8 {
        reports@.len() as int
    } else {
        8
    };
    lemma_reply(reports@, FW_REPLY@, 8, k, 0);
}

/// In the first of the sixteen reports read that begins with `21 03`, byte 14 counts the
/// channels and six bytes from byte 15 on stand for each of them. A channel below the
/// count and below eight is listed, with its number and the first of its bytes that is
/// not zero; nothing else is listed.
pub proof fn accessories_are_the_first_ids(
    d: NzxtBaseProtocol,
    reports: &[Vec<u8>],
    r: Vec<AccessoryInfo>,
    k: int,
    c: int,
    slot: int,
)
    requires
        call_ensures(NzxtBaseProtocol::detect_accessories, (&d, reports), r),
        0 <= k < 16,
        k < reports@.len(),
        reports@[k]@.len() >= 2,
        reports@[k]@[0] == 0x21,
        reports@[k]@[1] == 0x03,
        forall|j: int|
            0 <= j < k ==> {
                let p = (#[trigger] reports@[j])@;
                p.len() < 2 || p[0] != 0x21 || p[1] != 0x03
            },
        0 <= c,
        0 <= slot < 6,
        15 + 6 * c + slot < reports@[k]@.len(),
        reports@[k]@[15 + 6 * c + slot] != 0,
        forall|s: int| 0 <= s < slot ==> #[trigger] reports@[k]@[15 + 6 * c + s] == 0,
    ensures
        c < 8 && c < reports@[k]@[14] <==> exists|i: int|
            0 <= i < r@.len() && (#[trigger] r@[i]).channel_id == c,
        forall|i: int|
            0 <= i < r@.len() && (#[trigger] r@[i]).channel_id == c ==> r@[i].accessory_id
                == reports@[k]@[15 + 6 * c + slot],
{
    lemma_reply(reports@, ACCESSORY_REPLY@, 16, k, 0);
    let p = reports@[k]@;
    lemma_first_id(p, c, slot, 0);
    lemma_listed(p, accessory_channels(p), c);
}

/// The first id that is not zero is found.
proof fn lemma_first_id(msg: Seq<u8>, c: int, slot: int, from: nat)
    requires
        0 <= c,
        from <= slot < 6,
        15 + 6 * c + slot < msg.len(),
        msg[15 + 6 * c + slot] != 0,
        forall|s: int| 0 <= s < slot ==> #[trigger] msg[15 + 6 * c + s] == 0,
    ensures
        id_from(msg, c, from) == msg[15 + 6 * c + slot],
    decreases slot - from,
{
    assert(c * MAX_ACCESSORIES_PER_CHANNEL == 6 * c);
    if from < slot {
        assert(msg[15 + 6 * c + from as int] == 0);
        lemma_first_id(msg, c, slot, from + 1);
    }
}

/// A channel with an accessory is listed once.
proof fn lemma_listed(msg: Seq<u8>, n: nat, c: int)
    requires
        n <= 8,
        0 <= c,
        channel_accessory(msg, c) != 0,
    ensures
        ({
            let a = accessories_below(msg, n);
            &&& c < n <==> exists|i: int| 0 <= i < a.len() && (#[trigger] a[i]).channel_id == c
            &&& forall|i: int|
                0 <= i < a.len() && (#[trigger] a[i]).channel_id == c ==> a[i].accessory_id
                    == channel_accessory(msg, c)
            &&& forall|i: int| 0 <= i < a.len() ==> (#[trigger] a[i]).channel_id < n
        }),
    decreases n,
{
    if n > 0 {
        lemma_listed(msg, (n - 1) as nat, c);
        let before = accessories_below(msg, (n - 1) as nat);
        let a = accessories_below(msg, n);
        if c < n - 1 {
            let i = choose|i: int| 0 <= i < before.len() && (#[trigger] before[i]).channel_id == c;
            assert(a[i].channel_id == c);
        } else if c == n - 1 {
            assert(a[a.len() - 1].channel_id == c);
        }
    }
}

/// Colour `i` takes bytes `3i`, `3i + 1` and `3i + 2` after what was there: green, red,
/// blue. What was there stays.
pub proof fn colors_go_out_green_first(out: &mut Vec<u8>, colors: &[RgbColor], i: int)
    requires
        call_ensures(push_grb, (out, colors), ()),
        0 <= i < colors@.len(),
    ensures
        final(out)@.len() == old(out)@.len() + 3 * colors@.len(),
        final(out)@.take(old(out)@.len() as int) == old(out)@,
        final(out)@[old(out)@.len() + 3 * i] == colors@[i].g,
        final(out)@[old(out)@.len() + 3 * i + 1] == colors@[i].r,
        final(out)@[old(out)@.len() + 3 * i + 2] == colors@[i].b,
{
    lemma_grb(colors@, i);
}

/// Where colour `i` stands among the triples.
pub proof fn lemma_grb(colors: Seq<RgbColor>, i: int)
    requires
        0 <= i < colors.len(),
    ensures
        grb_bytes(colors).len() == 3 * colors.len(),
        grb_bytes(colors)[3 * i] == colors[i].g,
        grb_bytes(colors)[3 * i + 1] == colors[i].r,
        grb_bytes(colors)[3 * i + 2] == colors[i].b,
{
    assert((3 * i) / 3 == i && (3 * i) % 3 == 0);
    assert((3 * i + 1) / 3 == i && (3 * i + 1) % 3 == 1);
    assert((3 * i + 2) / 3 == i && (3 * i + 2) % 3 == 2);
}

} // verus!
