//! Headset audio: equalizer and sidetone.

use crate::bytes::{as_signed, as_unsigned, be16, signed, u16_be, unsigned};
use crate::logitech::protocols::hidpp::v2::feature::{EQUALIZER, SIDETONE};
use crate::logitech::protocols::hidpp::v2::{asks, calls_ask, Hidpp20};
use crate::logitech::protocols::hidpp::HidppMessenger;
use vstd::prelude::*;

verus! {

/// Asks for the equalizer's capabilities.
pub const EQ_GET_INFO: u8 = 0x00;

/// Asks for centre frequencies.
pub const EQ_GET_FREQUENCIES: u8 = 0x10;

/// Asks for the band levels.
pub const EQ_GET_BANDS: u8 = 0x20;

/// Sets the band levels.
pub const EQ_SET_BANDS: u8 = 0x30;

/// Stands before the bands to be read.
pub const EQ_READ_PREFIX: u8 = 0x00;

/// Stands before the bands to be written.
pub const EQ_WRITE_PREFIX: u8 = 0x02;

/// Asks for the sidetone.
pub const SIDETONE_GET: u8 = 0x00;

/// Sets the sidetone.
pub const SIDETONE_SET: u8 = 0x10;

/// How many frequencies one reply holds.
pub const FREQUENCIES_PER_REPLY: usize = 7;

/// An equalizer's capabilities.
#[derive(Debug, Clone, Copy, PartialEq, Eq, Structural)]
pub struct EqInfo {
    pub count: u8,
    pub db_min: i8,
    pub db_max: i8,
}

/// An equalizer: capabilities, centre frequencies in hertz, levels in decibels.
#[derive(Debug)]
pub struct EqReading {
    pub info: Option<EqInfo>,
    pub freqs: Vec<u16>,
    pub bands: Vec<i8>,
}

/// A level within 0 and 100.
pub open spec fn percent_level(level: u8) -> u8 {
    if level > 100 {
        100
    } else {
        level
    }
}

/// The sidetone in a reply.
pub open spec fn sidetone_in(reply: Seq<u8>) -> Option<u8> {
    if reply.len() > 0 {
        Some(percent_level(reply[0]))
    } else {
        None
    }
}

/// Reads the sidetone from a reply.
pub fn parse_sidetone(reply: &[u8]) -> (r: Option<u8>)
    ensures
        r == sidetone_in(reply@),
{
    if reply.len() > 0 {
        let b: u8 = reply[0];
        Some(
            if b > 100 {
                100
            } else {
                b
            },
        )
    } else {
        None
    }
}

/// Encodes the sidetone.
pub fn encode_sidetone(level: u8) -> (r: [u8; 1])
    ensures
        r@ == seq![percent_level(level)],
{
    let r: [u8; 1] = [
        if level > 100 {
            100
        } else {
            level
        },
    ];
    proof {
        assert(r@ =~= seq![percent_level(level)]);
    }
    r
}

/// Whether the lowest level would be the negative of a range that has none.
pub open spec fn range_overflows(reply: Seq<u8>) -> bool {
    reply.len() >= 5 && reply[0] != 0 && reply[3] == 0 && reply[1] == 0x80
}

/// The capabilities in a reply: the number of bands, the range, and the lowest and highest
/// level, where zero stands for the end of the range. No bands are no equalizer.
pub open spec fn eq_info_in(reply: Seq<u8>) -> Option<EqInfo> {
    if reply.len() < 5 || reply[0] == 0 {
        None
    } else {
        Some(
            EqInfo {
                count: reply[0],
                db_min: if reply[3] == 0 {
                    (-signed(reply[1])) as i8
                } else {
                    signed(reply[3]) as i8
                },
                db_max: if reply[4] == 0 {
                    signed(reply[1]) as i8
                } else {
                    signed(reply[4]) as i8
                },
            },
        )
    }
}

/// Reads the capabilities from a reply.
pub fn parse_eq_info(reply: &[u8]) -> (r: Option<EqInfo>)
    requires
        !range_overflows(reply@),
    ensures
        r == eq_info_in(reply@),
{
    if reply.len() < 5 {
        return None;
    }
    let count: u8 = reply[0];
    if count == 0 {
        return None;
    }
    let db_range: i8 = as_signed(reply[1]);
    let raw_min: i8 = as_signed(reply[3]);
    let raw_max: i8 = as_signed(reply[4]);
    let db_min: i8 = if raw_min == 0 {
        -db_range
    } else {
        raw_min
    };
    let db_max: i8 = if raw_max == 0 {
        db_range
    } else {
        raw_max
    };
    Some(EqInfo { count, db_min, db_max })
}

/// How many frequencies a reply holds of those that are missing.
pub open spec fn frequency_count(reply_len: nat, remaining: nat) -> nat {
    let held = if reply_len == 0 {
        0nat
    } else {
        ((reply_len - 1) / 2) as nat
    };
    let wanted = if remaining < FREQUENCIES_PER_REPLY {
        remaining
    } else {
        FREQUENCIES_PER_REPLY as nat
    };
    if held < wanted {
        held
    } else {
        wanted
    }
}

/// The frequencies in a reply, behind its first byte.
pub open spec fn frequencies_in(reply: Seq<u8>, remaining: nat) -> Seq<u16> {
    Seq::new(
        frequency_count(reply.len(), remaining),
        |b: int| be16(reply[2 * b + 1], reply[2 * b + 2]) as u16,
    )
}

/// Reads the frequencies from a reply.
pub fn parse_eq_frequencies(reply: &[u8], remaining: usize) -> (r: Vec<u16>)
    ensures
        r@ == frequencies_in(reply@, remaining as nat),
{
    let len: usize = reply.len();
    let wanted: usize = if remaining < FREQUENCIES_PER_REPLY {
        remaining
    } else {
        FREQUENCIES_PER_REPLY
    };
    let mut out: Vec<u16> = Vec::new();
    let mut b: usize = 0;
    while b < wanted && 2 * b + 3 <= len
        invariant
            b <= wanted <= 7,
            len == reply@.len(),
            wanted == if remaining < FREQUENCIES_PER_REPLY {
                remaining
            } else {
                FREQUENCIES_PER_REPLY
            },
            b <= frequency_count(reply@.len(), remaining as nat),
            out@ =~= frequencies_in(reply@, remaining as nat).take(b as int),
        decreases wanted - b,
    {
        out.push(u16_be(reply[2 * b + 1], reply[2 * b + 2]));
        b = b + 1;
    }
    proof {
        assert(out@ =~= frequencies_in(reply@, remaining as nat));
    }
    out
}

/// The levels in a reply; a missing one is zero.
pub open spec fn bands_in(reply: Seq<u8>, count: nat) -> Seq<i8> {
    Seq::new(
        count,
        |n: int|
            if n < reply.len() {
                signed(reply[n]) as i8
            } else {
                0
            },
    )
}

/// Reads the levels from a reply.
pub fn parse_eq_bands(reply: &[u8], count: u8) -> (r: Vec<i8>)
    ensures
        r@ == bands_in(reply@, count as nat),
{
    let n: usize = count as usize;
    let mut out: Vec<i8> = Vec::new();
    let mut i: usize = 0;
    while i < n
        invariant
            i <= n,
            n == count,
            out@ =~= bands_in(reply@, i as nat),
        decreases n - i,
    {
        if i < reply.len() {
            out.push(as_signed(reply[i]));
        } else {
            out.push(0);
        }
        i = i + 1;
    }
    out
}

/// A level moved into a range.
pub open spec fn clamped_level(v: i8, db_min: i8, db_max: i8) -> i8 {
    if v < db_min {
        db_min
    } else if v > db_max {
        db_max
    } else {
        v
    }
}

/// Levels moved into a range.
pub open spec fn clamped_levels(values: Seq<i8>, db_min: i8, db_max: i8) -> Seq<i8> {
    Seq::new(values.len(), |i: int| clamped_level(values[i], db_min, db_max))
}

/// The parameters that set levels.
pub open spec fn bands_payload(values: Seq<i8>, db_min: i8, db_max: i8) -> Seq<u8> {
    seq![EQ_WRITE_PREFIX] + Seq::new(
        values.len(),
        |i: int| unsigned(clamped_level(values[i], db_min, db_max)),
    )
}

/// Moves a level into a range.
fn clamp_level(v: i8, db_min: i8, db_max: i8) -> (r: i8)
    ensures
        r == clamped_level(v, db_min, db_max),
{
    if v < db_min {
        db_min
    } else if v > db_max {
        db_max
    } else {
        v
    }
}

/// Encodes levels, each moved into the range.
pub fn encode_eq_bands(values: &[i8], db_min: i8, db_max: i8) -> (r: Vec<u8>)
    requires
        db_min <= db_max,
    ensures
        r@ == bands_payload(values@, db_min, db_max),
{
    let n: usize = values.len();
    let mut payload: Vec<u8> = vec![EQ_WRITE_PREFIX];
    let mut i: usize = 0;
    while i < n
        invariant
            i <= n,
            n == values@.len(),
            payload@ =~= bands_payload(values@.take(i as int), db_min, db_max),
        decreases n - i,
    {
        payload.push(as_unsigned(clamp_level(values[i], db_min, db_max)));
        i = i + 1;
    }
    proof {
        assert(values@.take(n as int) =~= values@);
    }
    payload
}

/// How many replies hold the frequencies of `count` bands.
pub open spec fn group_count(count: int) -> int {
    (count + 6) / 7
}

/// The frequencies in the replies to the first `n` questions; a question that failed gives
/// none.
pub open spec fn frequencies_of(replies: Seq<Option<Vec<u8>>>, count: int, n: nat) -> Seq<u16>
    decreases n,
{
    if n == 0 {
        Seq::empty()
    } else {
        let g = n - 1;
        let rest = frequencies_of(replies, count, g as nat);
        if g < replies.len() && replies[g] is Some {
            rest + frequencies_in(replies[g]->Some_0@, (count - 7 * g) as nat)
        } else {
            rest
        }
    }
}

/// The first band of each question for frequencies.
pub fn frequency_starts(info: &EqInfo) -> (r: Vec<u8>)
    ensures
        r@ == Seq::new(group_count(info.count as int) as nat, |g: int| (7 * g) as u8),
{
    let count: u16 = info.count as u16;
    let mut out: Vec<u8> = Vec::new();
    let mut start: u16 = 0;
    while start < count
        invariant
            count == info.count,
            start == 7 * out@.len(),
            start <= count + 6,
            out@ =~= Seq::new(out@.len(), |g: int| (7 * g) as u8),
        decreases count + 7 - start,
    {
        out.push(start as u8);
        start = start + 7;
    }
    out
}

impl Hidpp20 {
    /// An equalizer, from the replies to all questions; nothing is known of it without
    /// capabilities. Levels that could not be read are zero.
    pub fn read_equalizer(
        info_reply: Option<&[u8]>,
        frequency_replies: &[Option<Vec<u8>>],
        bands_reply: Option<&[u8]>,
    ) -> (r: EqReading)
        requires
            info_reply is Some ==> !range_overflows(info_reply->Some_0@),
        ensures
            match (
                match info_reply {
                    Some(data) => eq_info_in(data@),
                    None => None,
                }
            ) {
                Some(info) => {
                    &&& r.info == Some(info)
                    &&& r.freqs@ == frequencies_of(
                        frequency_replies@,
                        info.count as int,
                        group_count(info.count as int) as nat,
                    )
                    &&& r.bands@ == match bands_reply {
                        Some(data) => bands_in(data@, info.count as nat),
                        None => Seq::new(info.count as nat, |i: int| 0i8),
                    }
                },
                None => r.info is None && r.freqs@.len() == 0 && r.bands@.len() == 0,
            },
    {
        let parsed = match info_reply {
            Some(data) => parse_eq_info(data),
            None => None,
        };
        let info: EqInfo = match parsed {
            Some(info) => info,
            None => {
                return EqReading { info: None, freqs: Vec::new(), bands: Vec::new() };
            },
        };
        let count: usize = info.count as usize;
        let mut freqs: Vec<u16> = Vec::new();
        let mut g: usize = 0;
        while 7 * g < count
            invariant
                count == info.count,
                g <= group_count(count as int),
                g <= 37,
                freqs@ == frequencies_of(frequency_replies@, count as int, g as nat),
            decreases count + 7 - 7 * g,
        {
            let ghost before = freqs@;
            if g < frequency_replies.len() {
                if let Some(reply) = &frequency_replies[g] {
                    let mut more: Vec<u16> = parse_eq_frequencies(reply.as_slice(), count - 7 * g);
                    freqs.append(&mut more);
                }
            }
            g = g + 1;
        }
        proof {
            assert(g == group_count(count as int));
        }
        let bands: Vec<i8> = match bands_reply {
            Some(data) => parse_eq_bands(data, info.count),
            None => {
                let zeros: Vec<i8> = vec![0i8; count];
                proof {
                    assert(zeros@ =~= Seq::new(info.count as nat, |i: int| 0i8));
                }
                zeros
            },
        };
        EqReading { info: Some(info), freqs, bands }
    }
}

impl Hidpp20 {
    /// The sidetone in a reply; none where the question failed.
    pub fn read_sidetone(reply: Option<&[u8]>) -> (r: Option<u8>)
        ensures
            r == match reply {
                Some(data) => sidetone_in(data@),
                None => None,
            },
    {
        match reply {
            Some(data) => parse_sidetone(data),
            None => None,
        }
    }
}

impl Hidpp20 {
    /// Asks for the sidetone.
    pub fn sidetone_request(&self, msg: &mut HidppMessenger) -> (r: Option<Vec<u8>>)
        ensures
            self.calls(*old(msg), *final(msg), SIDETONE, SIDETONE_GET, Seq::empty(), r),
    {
        self.request_plain(msg, SIDETONE, SIDETONE_GET)
    }

    /// Sets the sidetone.
    pub fn set_sidetone(&self, msg: &mut HidppMessenger, level: u8) -> (r: Option<Vec<u8>>)
        ensures
            self.calls(
                *old(msg),
                *final(msg),
                SIDETONE,
                SIDETONE_SET,
                seq![percent_level(level)],
                r,
            ),
    {
        let params: [u8; 1] = encode_sidetone(level);
        self.request(msg, SIDETONE, SIDETONE_SET, &params)
    }

    /// Asks for the equalizer's capabilities.
    pub fn eq_info_request(&self, msg: &mut HidppMessenger) -> (r: Option<Vec<u8>>)
        ensures
            self.calls(*old(msg), *final(msg), EQUALIZER, EQ_GET_INFO, Seq::empty(), r),
    {
        self.request_plain(msg, EQUALIZER, EQ_GET_INFO)
    }

    /// Asks for the frequencies from a band on.
    pub fn eq_frequencies_request(&self, msg: &mut HidppMessenger, start: u8) -> (r: Option<
        Vec<u8>,
    >)
        ensures
            self.calls(*old(msg), *final(msg), EQUALIZER, EQ_GET_FREQUENCIES, seq![start], r),
    {
        self.request_byte(msg, EQUALIZER, EQ_GET_FREQUENCIES, start)
    }

    /// Asks for the levels.
    pub fn eq_bands_request(&self, msg: &mut HidppMessenger) -> (r: Option<Vec<u8>>)
        ensures
            self.calls(*old(msg), *final(msg), EQUALIZER, EQ_GET_BANDS, seq![EQ_READ_PREFIX], r),
    {
        self.request_byte(msg, EQUALIZER, EQ_GET_BANDS, EQ_READ_PREFIX)
    }

    /// Sets the levels. Returns the packet, and the levels that the device then holds.
    pub fn set_eq_bands(&self, msg: &mut HidppMessenger, values: &[i8], info: EqInfo) -> (r: (
        Option<Vec<u8>>,
        Vec<i8>,
    ))
        requires
            info.db_min <= info.db_max,
        ensures
            self.calls(
                *old(msg),
                *final(msg),
                EQUALIZER,
                EQ_SET_BANDS,
                bands_payload(values@, info.db_min, info.db_max),
                r.0,
            ),
            r.1@ == clamped_levels(values@, info.db_min, info.db_max),
    {
        let payload: Vec<u8> = encode_eq_bands(values, info.db_min, info.db_max);
        let pkt = self.request(msg, EQUALIZER, EQ_SET_BANDS, payload.as_slice());
        let n: usize = values.len();
        let mut held: Vec<i8> = Vec::new();
        let mut i: usize = 0;
        while i < n
            invariant
                i <= n,
                n == values@.len(),
                held@ =~= clamped_levels(values@.take(i as int), info.db_min, info.db_max),
            decreases n - i,
        {
            held.push(clamp_level(values[i], info.db_min, info.db_max));
            i = i + 1;
        }
        proof {
            assert(values@.take(n as int) =~= values@);
        }
        (pkt, held)
    }
}

/// Levels within the range read back as they were written.
pub proof fn eq_bands_encode_decode_round_trip(bands: Seq<i8>, db_min: i8, db_max: i8)
    requires
        forall|i: int| #![trigger bands[i]] 0 <= i < bands.len() ==> db_min <= bands[i] <= db_max,
    ensures
        bands_in(bands_payload(bands, db_min, db_max).skip(1), bands.len()) == bands,
{
    let payload = bands_payload(bands, db_min, db_max);
    let back = bands_in(payload.skip(1), bands.len());
    assert forall|i: int| 0 <= i < bands.len() implies #[trigger] back[i] == bands[i] by {
        assert(payload.skip(1)[i] == payload[i + 1]);
        assert(clamped_level(bands[i], db_min, db_max) == bands[i]);
    }
    assert(back =~= bands);
}

/// Whatever levels are asked for, those that are written stay within the range.
pub proof fn eq_bands_encode_stays_in_range(raw: Seq<i8>, db_min: i8, db_max: i8, i: int)
    requires
        db_min <= db_max,
        0 <= i < raw.len(),
    ensures
        db_min <= signed(bands_payload(raw, db_min, db_max)[i + 1]) <= db_max,
        signed(bands_payload(raw, db_min, db_max)[i + 1]) == clamped_levels(
            raw,
            db_min,
            db_max,
        )[i],
{
}

/// A sidetone reads back as it was set, once it is within 0 and 100.
pub proof fn sidetone_round_trips(level: u8)
    ensures
        sidetone_in(seq![percent_level(level)]) == Some(percent_level(level)),
        level <= 100 ==> percent_level(level) == level,
{
}

/// Sidetone and equalizer are asked for and set through features 0x8300 and 0x8310.
pub proof fn audio_is_asked_for_and_set(
    d: Hidpp20,
    level: u8,
    start: u8,
    m1: &mut HidppMessenger,
    m2: &mut HidppMessenger,
    m3: &mut HidppMessenger,
    m4: &mut HidppMessenger,
    m5: &mut HidppMessenger,
    sidetone: Option<Vec<u8>>,
    set_sidetone: Option<Vec<u8>>,
    info: Option<Vec<u8>>,
    frequencies: Option<Vec<u8>>,
    bands: Option<Vec<u8>>,
)
    requires
        call_ensures(Hidpp20::sidetone_request, (&d, m1), sidetone),
        call_ensures(Hidpp20::set_sidetone, (&d, m2, level), set_sidetone),
        call_ensures(Hidpp20::eq_info_request, (&d, m3), info),
        call_ensures(Hidpp20::eq_frequencies_request, (&d, m4, start), frequencies),
        call_ensures(Hidpp20::eq_bands_request, (&d, m5), bands),
    ensures
        asks(d, 0x8300, 0x01, Seq::empty(), sidetone),
        asks(d, 0x8300, 0x11, seq![if level > 100 { 100 } else { level }], set_sidetone),
        asks(d, 0x8310, 0x01, Seq::empty(), info),
        asks(d, 0x8310, 0x11, seq![start], frequencies),
        asks(d, 0x8310, 0x21, seq![0u8], bands),
{
    calls_ask(d, *old(m1), *final(m1), 0x8300, 0x00, Seq::empty(), sidetone);
    calls_ask(d, *old(m2), *final(m2), 0x8300, 0x10, seq![percent_level(level)], set_sidetone);
    calls_ask(d, *old(m3), *final(m3), 0x8310, 0x00, Seq::empty(), info);
    calls_ask(d, *old(m4), *final(m4), 0x8310, 0x10, seq![start], frequencies);
    calls_ask(d, *old(m5), *final(m5), 0x8310, 0x20, seq![0u8], bands);
}

/// A sidetone is read and sent as it is, up to 100.
pub proof fn sidetones_are_percentages(
    reply: &[u8],
    r: Option<u8>,
    s: Option<u8>,
    level: u8,
    sent: [u8; 1],
)
    requires
        call_ensures(parse_sidetone, (reply,), r),
        call_ensures(Hidpp20::read_sidetone, (Some(reply),), s),
        call_ensures(encode_sidetone, (level,), sent),
    ensures
        r is Some <==> reply@.len() > 0,
        r is Some && reply@[0] <= 100 ==> r->Some_0 == reply@[0],
        r is Some && reply@[0] > 100 ==> r->Some_0 == 100,
        s == r,
        level <= 100 ==> sent@[0] == level,
        level > 100 ==> sent@[0] == 100,
{
}

/// Levels are set behind a two, each as a signed byte and moved into the range of the
/// equalizer; what is remembered are the levels that were sent.
pub proof fn levels_are_set_in_order(
    d: Hidpp20,
    m: &mut HidppMessenger,
    values: &[i8],
    info: EqInfo,
    r: (Option<Vec<u8>>, Vec<i8>),
    i: int,
)
    requires
        info.db_min <= info.db_max,
        call_ensures(Hidpp20::set_eq_bands, (&d, m, values, info), r),
        0 <= i < values@.len() <= 15,
    ensures
        r.0 is Some <==> d.features@.contains_key(0x8310),
        r.0 is Some ==> {
            let p = r.0->Some_0@;
            &&& p.len() == 20 || p.len() == 7
            &&& p[1] == d.devnum && p[2] == d.features@[0x8310] && p[3] == 0x31 && p[4] == 0x02
            &&& p[5 + i] == if r.1@[i] < 0 {
                256 + r.1@[i]
            } else {
                r.1@[i] as int
            }
        },
        r.1@.len() == values@.len(),
        info.db_min <= values@[i] <= info.db_max ==> r.1@[i] == values@[i],
        values@[i] < info.db_min ==> r.1@[i] == info.db_min,
        values@[i] > info.db_max ==> r.1@[i] == info.db_max,
{
    let payload = bands_payload(values@, info.db_min, info.db_max);
    calls_ask(d, *old(m), *final(m), 0x8310, 0x30, payload, r.0);
    assert(payload[0] == 0x02);
    assert(payload[1 + i] == unsigned(clamped_level(values@[i], info.db_min, info.db_max)));
    if r.0 is Some {
        let p = r.0->Some_0@;
        assert(p[4] == payload[0]);
        assert(p[4 + (1 + i)] == payload[1 + i]);
    }
}

/// The capabilities are the number of bands and their lowest and highest level as signed
/// bytes; a missing level is the end of the symmetric range.
pub proof fn capabilities_are_signed(reply: &[u8], r: Option<EqInfo>)
    requires
        !range_overflows(reply@),
        call_ensures(parse_eq_info, (reply,), r),
    ensures
        r is Some <==> reply@.len() >= 5 && reply@[0] > 0,
        r matches Some(e) ==> {
            let d = reply@;
            &&& e.count == d[0]
            &&& d[3] > 0 ==> e.db_min == if d[3] < 128 {
                d[3] as int
            } else {
                d[3] - 256
            }
            &&& d[4] > 0 ==> e.db_max == if d[4] < 128 {
                d[4] as int
            } else {
                d[4] - 256
            }
            &&& d[3] == 0 && d[1] < 128 ==> e.db_min == -d[1]
            &&& d[4] == 0 && d[1] < 128 ==> e.db_max == d[1]
        },
{
}

/// Levels are read as signed bytes from the first on; those that are missing are zero.
pub proof fn levels_are_read_in_order(reply: &[u8], count: u8, r: Vec<i8>, i: int)
    requires
        call_ensures(parse_eq_bands, (reply, count), r),
        0 <= i < count,
    ensures
        r@.len() == count,
        i < reply@.len() && reply@[i] < 128 ==> r@[i] == reply@[i],
        i < reply@.len() && reply@[i] >= 128 ==> r@[i] == reply@[i] - 256,
        i >= reply@.len() ==> r@[i] == 0,
{
}

/// Frequencies are pairs of bytes, high byte first, behind the first byte of a reply: at
/// most seven of them, and no more than are missing.
pub proof fn frequencies_are_read_in_order(reply: &[u8], remaining: usize, r: Vec<u16>, i: int)
    requires
        call_ensures(parse_eq_frequencies, (reply, remaining), r),
    ensures
        0 <= i < r@.len() ==> 2 * i + 2 < reply@.len() && r@[i] == 256 * reply@[2 * i + 1] + reply@[2
            * i + 2],
        r@.len() <= 7 && r@.len() <= remaining,
        r@.len() == 7 || r@.len() == remaining || 2 * r@.len() + 2 >= reply@.len(),
{
}

/// Frequencies are asked for in groups of seven, from the first band on, until all are.
pub proof fn frequency_questions_cover_every_band(info: EqInfo, r: Vec<u8>, i: int)
    requires
        call_ensures(frequency_starts, (&info,), r),
    ensures
        0 <= i < r@.len() ==> r@[i] == 7 * i && 7 * i < info.count,
        7 * r@.len() >= info.count,
        info.count > 0 ==> r@.len() > 0,
{
}

/// An equalizer that answers every question is read completely: its capabilities, its levels,
/// and the frequencies of one group after those of the other.
pub proof fn equalizers_are_read_completely(
    info: &[u8],
    frequencies: &[Option<Vec<u8>>],
    bands: &[u8],
    r: EqReading,
    capabilities: Option<EqInfo>,
    levels: Vec<i8>,
    first: &[u8],
    second: &[u8],
    low: Vec<u16>,
    high: Vec<u16>,
)
    requires
        !range_overflows(info@),
        call_ensures(Hidpp20::read_equalizer, (Some(info), frequencies, Some(bands)), r),
        call_ensures(parse_eq_info, (info,), capabilities),
        capabilities is Some,
        call_ensures(parse_eq_bands, (bands, capabilities->Some_0.count), levels),
        frequencies@.len() == 2,
        frequencies@[0] is Some && frequencies@[0]->Some_0@ == first@,
        frequencies@[1] is Some && frequencies@[1]->Some_0@ == second@,
        capabilities->Some_0.count <= 14,
        call_ensures(parse_eq_frequencies, (first, capabilities->Some_0.count as usize), low),
        capabilities->Some_0.count > 7 ==> call_ensures(
            parse_eq_frequencies,
            (second, (capabilities->Some_0.count - 7) as usize),
            high,
        ),
    ensures
        r.info == capabilities,
        r.bands@ == levels@,
        capabilities->Some_0.count <= 7 ==> r.freqs@ == low@,
        capabilities->Some_0.count > 7 ==> r.freqs@ == low@ + high@,
{
    let count = capabilities->Some_0.count as int;
    reveal_with_fuel(frequencies_of, 3);
    let a = frequencies_in(first@, count as nat);
    assert(frequencies_of(frequencies@, count, 1) =~= a);
    if count > 7 {
        assert(group_count(count) == 2);
        assert(frequencies_of(frequencies@, count, 2) =~= a + frequencies_in(
            second@,
            (count - 7) as nat,
        ));
    } else {
        assert(group_count(count) == 1);
    }
}

/// Levels go out behind a `02`, each in its range and negative ones in two's complement.
pub proof fn levels_are_encoded_in_order(
    values: &[i8],
    db_min: i8,
    db_max: i8,
    r: Vec<u8>,
    i: int,
)
    requires
        call_ensures(encode_eq_bands, (values, db_min, db_max), r),
        db_min <= db_max,
        0 <= i < values@.len(),
    ensures
        r@.len() == values@.len() + 1,
        r@[0] == 0x02,
        ({
            let v: int = if values@[i] < db_min {
                db_min as int
            } else if values@[i] > db_max {
                db_max as int
            } else {
                values@[i] as int
            };
            r@[i + 1] == if v < 0 {
                v + 256
            } else {
                v
            }
        }),
{
}

} // verus!
