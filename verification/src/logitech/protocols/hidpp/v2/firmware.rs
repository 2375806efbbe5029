//! Firmware versions.

use crate::bytes::u16_be;
use crate::logitech::protocols::hidpp::v2::feature::FIRMWARE_VERSION;
use crate::logitech::protocols::hidpp::v2::{asks, calls_ask, Hidpp20};
use crate::logitech::protocols::hidpp::HidppMessenger;
use crate::text::{
    drop_end, dropped_end, from_utf8_lossy, hex_value, owned, push_upper_hex, upper_hex,
    upper_hex_reads_back, utf8_lossy,
};
use vstd::prelude::*;
use vstd::slice::*;

verus! {

/// Asks for the number of firmwares.
pub const GET_COUNT: u8 = 0x00;

/// Asks for one firmware.
pub const GET_FW_INFO: u8 = 0x10;

/// The kind of the main firmware.
pub const FW_TYPE_MAIN: u8 = 0x00;

/// One firmware.
#[derive(Debug)]
pub struct FirmwareEntity {
    pub kind: u8,
    pub name: String,
    pub version: String,
}

/// The name in a reply: three characters without zeros and spaces at the end.
pub open spec fn entity_name(reply: Seq<u8>) -> Seq<char> {
    drop_end(utf8_lossy(reply.subrange(1, 4)), '\0', ' ')
}

/// The version in a reply: name, major and minor number, build number.
pub open spec fn entity_version(reply: Seq<u8>) -> Seq<char> {
    entity_name(reply) + upper_hex(reply[4] as nat, 2) + "."@ + upper_hex(reply[5] as nat, 2)
        + ".B"@ + upper_hex((reply[6] as int * 256 + reply[7] as int) as nat, 4)
}

/// Whether `e` is what a reply describes; replies of fewer than eight bytes describe
/// nothing. The kind is the lower half of the first byte.
pub open spec fn describes(reply: Seq<u8>, e: Option<FirmwareEntity>) -> bool {
    match e {
        Some(f) => reply.len() >= 8 && f.kind == reply[0] % 16 && f.name@ == entity_name(reply)
            && f.version@ == entity_version(reply),
        None => reply.len() < 8,
    }
}

/// Reads one firmware from a reply.
pub fn parse_fw_entity(reply: &[u8]) -> (r: Option<FirmwareEntity>)
    ensures
        describes(reply@, r),
{
    if reply.len() < 8 {
        return None;
    }
    let kind: u8 = reply[0] % 16;
    let text: String = from_utf8_lossy(slice_subrange(reply, 1, 4));
    let name: String = dropped_end(text.as_str(), '\0', ' ');
    let build: u16 = u16_be(reply[6], reply[7]);
    let mut version: String = owned(name.as_str());
    push_upper_hex(&mut version, reply[4] as u64, 2);
    version.append(".");
    push_upper_hex(&mut version, reply[5] as u64, 2);
    version.append(".B");
    push_upper_hex(&mut version, build as u64, 4);
    Some(FirmwareEntity { kind, name, version })
}

/// The version of the first main firmware among the replies from `from` on; a question that
/// failed and a short reply are passed over.
pub open spec fn main_version(replies: Seq<Option<Vec<u8>>>, from: int) -> Option<Seq<char>>
    decreases replies.len() - from,
{
    if from < 0 || from >= replies.len() {
        None
    } else {
        match replies[from] {
            Some(data) => if data@.len() >= 8 && data@[0] % 16 == FW_TYPE_MAIN {
                Some(entity_version(data@))
            } else {
                main_version(replies, from + 1)
            },
            None => main_version(replies, from + 1),
        }
    }
}

/// The number of firmwares in a reply; none where the question failed or the reply is
/// empty.
pub fn firmware_count(reply: Option<&[u8]>) -> (r: Option<u8>)
    ensures
        r == match reply {
            Some(data) => if data@.len() > 0 {
                Some(data@[0])
            } else {
                None
            },
            None => None,
        },
{
    match reply {
        Some(data) => if data.len() > 0 {
            Some(data[0])
        } else {
            None
        },
        None => None,
    }
}

impl Hidpp20 {
    /// The version of the main firmware, from the replies for each firmware in turn.
    pub fn read_firmware_version(replies: &[Option<Vec<u8>>]) -> (r: Option<String>)
        ensures
            match (r, main_version(replies@, 0)) {
                (Some(a), Some(b)) => a@ == b,
                (None, None) => true,
                _ => false,
            },
    {
        let n: usize = replies.len();
        let mut i: usize = 0;
        while i < n
            invariant
                i <= n,
                n == replies@.len(),
                main_version(replies@, 0) == main_version(replies@, i as int),
            decreases n - i,
        {
            if let Some(reply) = &replies[i] {
                if let Some(e) = parse_fw_entity(reply.as_slice()) {
                    if e.kind == FW_TYPE_MAIN {
                        return Some(e.version);
                    }
                }
            }
            i = i + 1;
        }
        None
    }
}

impl Hidpp20 {
    /// Asks for the number of firmwares.
    pub fn firmware_count_request(&self, msg: &mut HidppMessenger) -> (r: Option<Vec<u8>>)
        ensures
            self.calls(*old(msg), *final(msg), FIRMWARE_VERSION, GET_COUNT, Seq::empty(), r),
    {
        self.request_plain(msg, FIRMWARE_VERSION, GET_COUNT)
    }

    /// Asks for one firmware.
    pub fn firmware_info_request(&self, msg: &mut HidppMessenger, entity: u8) -> (r: Option<
        Vec<u8>,
    >)
        ensures
            self.calls(*old(msg), *final(msg), FIRMWARE_VERSION, GET_FW_INFO, seq![entity], r),
    {
        self.request_byte(msg, FIRMWARE_VERSION, GET_FW_INFO, entity)
    }
}

/// A firmware is asked for through feature 0x0003: how many there are by function zero, one
/// of them by function one.
pub proof fn firmwares_are_asked_for(
    d: Hidpp20,
    a: &mut HidppMessenger,
    b: &mut HidppMessenger,
    entity: u8,
    count: Option<Vec<u8>>,
    info: Option<Vec<u8>>,
)
    requires
        call_ensures(Hidpp20::firmware_count_request, (&d, a), count),
        call_ensures(Hidpp20::firmware_info_request, (&d, b, entity), info),
    ensures
        asks(d, 0x0003, 0x01, Seq::empty(), count),
        asks(d, 0x0003, 0x11, seq![entity], info),
{
    calls_ask(d, *old(a), *final(a), 0x0003, 0x00, Seq::empty(), count);
    calls_ask(d, *old(b), *final(b), 0x0003, 0x10, seq![entity], info);
}

/// The number of firmwares is the first byte of the reply.
pub proof fn firmware_counts_are_the_first_byte(reply: &[u8], r: Option<u8>, none: Option<u8>)
    requires
        call_ensures(firmware_count, (Some(reply),), r),
        call_ensures(firmware_count, (None::<&[u8]>,), none),
    ensures
        reply@.len() > 0 ==> r == Some(reply@[0]),
        reply@.len() == 0 ==> r is None,
        none is None,
{
}

/// A version is the name followed by the major number, the minor number and the build, each
/// in hexadecimal: two digits, two and four.
pub proof fn versions_spell_their_numbers(reply: &[u8], r: Option<FirmwareEntity>)
    requires
        call_ensures(parse_fw_entity, (reply,), r),
    ensures
        r is Some <==> reply@.len() >= 8,
        r matches Some(f) ==> {
            let n = f.name@.len() as int;
            let v = f.version@;
            &&& f.kind == reply@[0] & 0x0F
            &&& v.len() == n + 11
            &&& v.take(n) == f.name@
            &&& hex_value(v.subrange(n, n + 2)) == reply@[4]
            &&& v[n + 2] == '.'
            &&& hex_value(v.subrange(n + 3, n + 5)) == reply@[5]
            &&& v[n + 5] == '.' && v[n + 6] == 'B'
            &&& hex_value(v.subrange(n + 7, n + 11)) == 256 * reply@[6] + reply@[7]
            &&& f.name@ == drop_end(utf8_lossy(reply@.subrange(1, 4)), '\0', ' ')
        },
{
    if r is Some {
        let f = r->Some_0;
        let n = f.name@.len() as int;
        let v = f.version@;
        let k = reply@[0];
        assert(k & 0x0F == k % 16) by (bit_vector);
        reveal_strlit(".");
        reveal_strlit(".B");
        let (a, b) = (reply@[4] as nat, reply@[5] as nat);
        let c = (reply@[6] as int * 256 + reply@[7] as int) as nat;
        lemma_digits(a, 2);
        lemma_digits(b, 2);
        lemma_digits(c, 4);
        assert(v.take(n) =~= f.name@);
        assert(v.subrange(n, n + 2) =~= upper_hex(a, 2));
        assert(v.subrange(n + 3, n + 5) =~= upper_hex(b, 2));
        assert(v.subrange(n + 7, n + 11) =~= upper_hex(c, 4));
    }
}

/// A byte takes two digits and a pair of bytes four.
proof fn lemma_digits(n: nat, width: nat)
    requires
        width == 2 && n < 0x100 || width == 4 && n < 0x10000,
    ensures
        upper_hex(n, width).len() == width,
        hex_value(upper_hex(n, width)) == n,
{
    upper_hex_reads_back(n, width);
    reveal_with_fuel(upper_hex, 6);
}

/// The shown version is that of the first main firmware: kind zero in the lower half of the
/// first byte. Replies that failed or are short are passed over.
pub proof fn the_first_main_firmware_counts(
    replies: &[Option<Vec<u8>>],
    r: Option<String>,
    k: int,
    e: Option<FirmwareEntity>,
)
    requires
        call_ensures(Hidpp20::read_firmware_version, (replies,), r),
    ensures
        0 <= k < replies@.len() && is_main(replies@[k]) && (forall|j: int|
            0 <= j < k ==> !is_main(#[trigger] replies@[j])) ==> r is Some && (describes(
            replies@[k]->Some_0@,
            e,
        ) ==> e is Some && r->Some_0@ == e->Some_0.version@),
        (forall|j: int| 0 <= j < replies@.len() ==> !is_main(#[trigger] replies@[j])) ==> r is None,
{
    lemma_main(replies@, 0, k);
}

/// Whether a reply describes a main firmware.
pub open spec fn is_main(reply: Option<Vec<u8>>) -> bool {
    reply matches Some(data) && data@.len() >= 8 && data@[0] & 0x0F == 0
}

/// The first main firmware from a position on.
proof fn lemma_main(replies: Seq<Option<Vec<u8>>>, from: int, k: int)
    requires
        0 <= from,
    ensures
        from <= k < replies.len() && is_main(replies[k]) && (forall|j: int|
            from <= j < k ==> !is_main(#[trigger] replies[j])) ==> main_version(replies, from)
            == Some(entity_version(replies[k]->Some_0@)),
        (forall|j: int| from <= j < replies.len() ==> !is_main(#[trigger] replies[j]))
            ==> main_version(replies, from) is None,
    decreases replies.len() - from,
{
    if from < replies.len() {
        lemma_main(replies, from + 1, k);
        if replies[from] is Some && replies[from]->Some_0@.len() >= 8 {
            let b = replies[from]->Some_0@[0];
            assert(b & 0x0F == b % 16) by (bit_vector);
        }
    }
}

} // verus!
