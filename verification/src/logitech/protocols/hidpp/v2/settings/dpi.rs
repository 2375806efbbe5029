//! Sensitivity.

use crate::bytes::{be16, hi_byte, lo_byte, u16_be};
use crate::logitech::protocols::hidpp::v2::feature::ADJUSTABLE_DPI;
use crate::logitech::protocols::hidpp::v2::{asks, calls_ask, Hidpp20};
use crate::logitech::protocols::hidpp::HidppMessenger;
use vstd::prelude::*;

verus! {

/// Asks for a part of the list of sensitivities.
pub const GET_DPI_LIST: u8 = 0x10;

/// Asks for the sensitivity.
pub const GET_DPI: u8 = 0x20;

/// Sets the sensitivity.
pub const SET_DPI: u8 = 0x30;

/// The most parts a list is read in.
pub const MAX_LIST_PARTS: u8 = 16;

/// Values from `from` up to `end`, `step` apart.
pub open spec fn range_values(from: int, step: int, end: int) -> Seq<u16>
    decreases
        if from > end {
            0
        } else {
            end - from + 1
        },
{
    if step <= 0 || from > end {
        Seq::empty()
    } else {
        seq![from as u16] + range_values(from + step, step, end)
    }
}

/// The list that the bytes from `i` on add to `list`. A value of at least 0xE000 is the step
/// of a range that goes on from the last value, with its end behind it; zero ends the list.
pub open spec fn dpi_list_from(raw: Seq<u8>, i: nat, list: Seq<u16>) -> Seq<u16>
    decreases raw.len() - i,
{
    if i + 1 >= raw.len() {
        list
    } else {
        let val = be16(raw[i as int], raw[i as int + 1]);
        if val == 0 {
            list
        } else if val < 0xE000 {
            dpi_list_from(raw, i + 2, list.push(val as u16))
        } else if i + 3 >= raw.len() || val == 0xE000 {
            list
        } else {
            let end = be16(raw[i as int + 2], raw[i as int + 3]);
            dpi_list_from(
                raw,
                i + 4,
                if list.len() == 0 {
                    list
                } else {
                    list + range_values(list.last() + (val - 0xE000), val - 0xE000, end)
                },
            )
        }
    }
}

/// Reads a list of sensitivities.
pub fn parse_dpi_list(raw: &[u8]) -> (r: Vec<u16>)
    ensures
        r@ == dpi_list_from(raw@, 0, Seq::empty()),
{
    let n: usize = raw.len();
    let mut list: Vec<u16> = Vec::new();
    let mut i: usize = 0;
    while i < n && 1 < n - i
        invariant
            i <= n,
            n == raw@.len(),
            dpi_list_from(raw@, i as nat, list@) == dpi_list_from(raw@, 0, Seq::empty()),
        decreases n - i,
    {
        let val: u16 = u16_be(raw[i], raw[i + 1]);
        if val == 0 {
            return list;
        }
        if val < 0xE000 {
            list.push(val);
            i = i + 2;
        } else {
            let step: u16 = val - 0xE000;
            if n - i <= 3 || step == 0 {
                return list;
            }
            let end: u16 = u16_be(raw[i + 2], raw[i + 3]);
            let ghost before = list@;
            if list.len() > 0 {
                let mut cur: u32 = list[list.len() - 1] as u32 + step as u32;
                let ghost all = range_values(before.last() + step, step as int, end as int);
                proof {
                    assert(list@ + all =~= before + all);
                }
                while cur <= end as u32
                    invariant
                        0 < step <= 0x1FFF,
                        cur <= 0xFFFF + 0x1FFF,
                        list@ + range_values(cur as int, step as int, end as int) == before + all,
                    decreases 0xFFFF + 0x2000 - cur,
                {
                    let ghost here = list@;
                    list.push(cur as u16);
                    proof {
                        let rest = range_values(cur + step, step as int, end as int);
                        assert(list@ + rest =~= here + (seq![cur as u16] + rest));
                    }
                    cur = cur + step as u32;
                }
                proof {
                    assert(list@ + range_values(cur as int, step as int, end as int) =~= list@);
                }
            }
            i = i + 4;
        }
    }
    list
}

/// The sensitivity in a reply; longer replies have it behind the number of the sensor. Zero
/// stands for none.
pub open spec fn current_dpi(reply: Seq<u8>) -> Option<u16> {
    let dpi = if reply.len() >= 3 {
        be16(reply[1], reply[2])
    } else if reply.len() == 2 {
        be16(reply[0], reply[1])
    } else {
        0
    };
    if dpi == 0 {
        None
    } else {
        Some(dpi as u16)
    }
}

/// Reads the sensitivity from a reply.
pub fn parse_current_dpi(reply: &[u8]) -> (r: Option<u16>)
    ensures
        r == current_dpi(reply@),
{
    let dpi: u16 = if reply.len() >= 3 {
        u16_be(reply[1], reply[2])
    } else if reply.len() >= 2 {
        u16_be(reply[0], reply[1])
    } else {
        return None;
    };
    if dpi == 0 {
        None
    } else {
        Some(dpi)
    }
}

/// The parameters that set the sensitivity of the first sensor.
pub open spec fn set_dpi_params(dpi: u16) -> Seq<u8> {
    seq![0u8, (dpi / 256) as u8, (dpi % 256) as u8]
}

/// Encodes the parameters that set the sensitivity.
pub fn encode_set_dpi(dpi: u16) -> (r: [u8; 3])
    ensures
        r@ == set_dpi_params(dpi),
{
    let r: [u8; 3] = [0x00, hi_byte(dpi), lo_byte(dpi)];
    proof {
        assert(r@ =~= set_dpi_params(dpi));
    }
    r
}

/// A part of a list without the number of the sensor in front.
pub open spec fn list_part(reply: Seq<u8>) -> Seq<u8> {
    if reply.len() > 1 {
        reply.skip(1)
    } else {
        reply
    }
}

/// Whether two zeros stand next to each other.
pub open spec fn has_end(part: Seq<u8>) -> bool {
    exists|i: int| 0 <= i < part.len() - 1 && #[trigger] part[i] == 0 && part[i + 1] == 0
}

/// A list of sensitivities while it is read part by part.
#[derive(Debug)]
pub struct DpiListReader {
    pub raw: Vec<u8>,
    pub part: u8,
    pub ended: bool,
}

impl DpiListReader {
    /// No more parts are read than there can be.
    pub open spec fn wf(&self) -> bool {
        self.part <= MAX_LIST_PARTS && (self.part == MAX_LIST_PARTS ==> self.ended)
    }

    /// Nothing has been read.
    pub fn new() -> (r: Self)
        ensures
            r.wf(),
            r.raw@.len() == 0,
            r.part == 0,
            !r.ended,
    {
        DpiListReader { raw: Vec::new(), part: 0, ended: false }
    }

    /// Takes a part over. A failed question, the end of the list or the last part ends the
    /// reading.
    pub fn advance(&mut self, reply: Option<&[u8]>)
        requires
            old(self).wf(),
            !old(self).ended,
        ensures
            final(self).wf(),
            match reply {
                Some(data) => {
                    &&& final(self).raw@ == old(self).raw@ + list_part(data@)
                    &&& final(self).part == old(self).part + 1
                    &&& final(self).ended == (has_end(list_part(data@)) || old(self).part + 1
                        == MAX_LIST_PARTS)
                },
                None => final(self).ended && final(self).raw@ == old(self).raw@
                    && final(self).part == old(self).part,
            },
    {
        match reply {
            Some(data) => {
                let n: usize = data.len();
                let start: usize = if n > 1 {
                    1
                } else {
                    0
                };
                let ghost part = list_part(data@);
                let ghost before = self.raw@;
                let mut end_seen = false;
                let mut i: usize = start;
                proof {
                    assert(part =~= data@.subrange(start as int, n as int));
                }
                while i < n
                    invariant
                        start <= i <= n,
                        start <= 1,
                        n == data@.len(),
                        self.part == old(self).part,
                        part == data@.subrange(start as int, n as int),
                        self.raw@ =~= before + part.take(i - start),
                        end_seen == (exists|k: int|
                            0 <= k < i - start - 1 && #[trigger] part[k] == 0 && part[k + 1]
                                == 0),
                    decreases n - i,
                {
                    self.raw.push(data[i]);
                    let ghost k = i - start - 1;
                    if i > start && data[i] == 0 && data[i - 1] == 0 {
                        end_seen = true;
                        proof {
                            assert(part[k] == 0 && part[k + 1] == 0);
                        }
                    }
                    i = i + 1;
                }
                proof {
                    assert(part.take(n - start) =~= part);
                }
                self.part = self.part + 1;
                self.ended = end_seen || self.part == MAX_LIST_PARTS;
            },
            None => {
                self.ended = true;
            },
        }
    }

    /// The list read so far.
    pub fn read_dpi_list(&self) -> (r: Vec<u16>)
        ensures
            r@ == dpi_list_from(self.raw@, 0, Seq::empty()),
    {
        parse_dpi_list(self.raw.as_slice())
    }
}

impl Hidpp20 {
    /// The sensitivity in a reply; none where the question failed.
    pub fn read_current_dpi(reply: Option<&[u8]>) -> (r: Option<u16>)
        ensures
            r == match reply {
                Some(data) => current_dpi(data@),
                None => None,
            },
    {
        match reply {
            Some(data) => parse_current_dpi(data),
            None => None,
        }
    }
}

impl Hidpp20 {
    /// Asks for the next part of the list; none when its reading has ended or the device
    /// has no list.
    pub fn dpi_list_request(&self, msg: &mut HidppMessenger, reader: &DpiListReader) -> (r: Option<
        Vec<u8>,
    >)
        ensures
            if reader.ended {
                r is None && *final(msg) == *old(msg)
            } else {
                self.calls(
                    *old(msg),
                    *final(msg),
                    ADJUSTABLE_DPI,
                    GET_DPI_LIST,
                    seq![0u8, 0u8, reader.part],
                    r,
                )
            },
    {
        if reader.ended {
            None
        } else {
            self.request_three(msg, ADJUSTABLE_DPI, GET_DPI_LIST, 0x00, 0x00, reader.part)
        }
    }

    /// Asks for the sensitivity.
    pub fn current_dpi_request(&self, msg: &mut HidppMessenger) -> (r: Option<Vec<u8>>)
        ensures
            self.calls(*old(msg), *final(msg), ADJUSTABLE_DPI, GET_DPI, Seq::empty(), r),
    {
        self.request_plain(msg, ADJUSTABLE_DPI, GET_DPI)
    }

    /// Sets the sensitivity.
    pub fn set_dpi(&self, msg: &mut HidppMessenger, dpi: u16) -> (r: Option<Vec<u8>>)
        ensures
            self.calls(*old(msg), *final(msg), ADJUSTABLE_DPI, SET_DPI, set_dpi_params(dpi), r),
    {
        let params: [u8; 3] = encode_set_dpi(dpi);
        self.request(msg, ADJUSTABLE_DPI, SET_DPI, &params)
    }
}

/// A sensitivity that was set reads back from the same bytes.
pub proof fn set_dpi_reads_back(dpi: u16)
    requires
        dpi != 0,
    ensures
        current_dpi(set_dpi_params(dpi)) == Some(dpi),
{
}

/// The values of a range are `step` apart, start at its start and do not pass its end.
pub proof fn ranges_are_evenly_spaced(from: int, step: int, end: int, i: int)
    requires
        0 < step,
        0 <= from,
        end <= 0xFFFF,
        0 <= i < range_values(from, step, end).len(),
    ensures
        range_values(from, step, end)[i] == from + i * step,
        range_values(from, step, end)[i] <= end,
    decreases
        if from > end {
            0
        } else {
            end - from + 1
        },
{
    let rest = range_values(from + step, step, end);
    if i > 0 {
        ranges_are_evenly_spaced(from + step, step, end, i - 1);
        assert(range_values(from, step, end)[i] == rest[i - 1]);
        assert((i - 1) * step + step == i * step) by (nonlinear_arith);
    }
}

/// A list holds no zero, whatever bytes it was read from.
pub proof fn listed_values_are_not_zero(raw: Seq<u8>, i: nat, list: Seq<u16>, k: int)
    requires
        forall|j: int| 0 <= j < list.len() ==> #[trigger] list[j] != 0,
        0 <= k < dpi_list_from(raw, i, list).len(),
    ensures
        dpi_list_from(raw, i, list)[k] != 0,
    decreases raw.len() - i,
{
    if i + 1 < raw.len() {
        let val = be16(raw[i as int], raw[i as int + 1]);
        if val == 0 {
        } else if val < 0xE000 {
            listed_values_are_not_zero(raw, i + 2, list.push(val as u16), k);
        } else if i + 3 >= raw.len() || val == 0xE000 {
        } else {
            let end = be16(raw[i as int + 2], raw[i as int + 3]);
            let step = val - 0xE000;
            if list.len() == 0 {
                listed_values_are_not_zero(raw, i + 4, list, k);
            } else {
                let more = range_values(list.last() + step, step, end);
                let next = list + more;
                assert forall|j: int| 0 <= j < next.len() implies #[trigger] next[j] != 0 by {
                    if j >= list.len() {
                        ranges_are_evenly_spaced(
                            list.last() + step,
                            step,
                            end,
                            j - list.len(),
                        );
                        assert((j - list.len()) * step >= 0) by (nonlinear_arith)
                            requires
                                j - list.len() >= 0,
                                step > 0,
                        ;
                    }
                }
                listed_values_are_not_zero(raw, i + 4, next, k);
            }
        }
    }
}

/// The sensitivity is asked for and set through feature 0x2201: its list by function one,
/// part by part, itself by function two, and a new one by function three, high byte first,
/// for the first sensor.
pub proof fn sensitivities_are_asked_for_and_set(
    d: Hidpp20,
    dpi: u16,
    reader: DpiListReader,
    a: &mut HidppMessenger,
    b: &mut HidppMessenger,
    c: &mut HidppMessenger,
    list: Option<Vec<u8>>,
    current: Option<Vec<u8>>,
    set: Option<Vec<u8>>,
)
    requires
        call_ensures(Hidpp20::dpi_list_request, (&d, a, &reader), list),
        call_ensures(Hidpp20::current_dpi_request, (&d, b), current),
        call_ensures(Hidpp20::set_dpi, (&d, c, dpi), set),
    ensures
        !reader.ended ==> asks(d, 0x2201, 0x11, seq![0u8, 0, reader.part], list),
        reader.ended ==> list is None,
        asks(d, 0x2201, 0x21, Seq::empty(), current),
        asks(d, 0x2201, 0x31, seq![0u8, (dpi / 256) as u8, (dpi % 256) as u8], set),
{
    if !reader.ended {
        calls_ask(d, *old(a), *final(a), 0x2201, 0x10, seq![0u8, 0, reader.part], list);
    }
    calls_ask(d, *old(b), *final(b), 0x2201, 0x20, Seq::empty(), current);
    calls_ask(d, *old(c), *final(c), 0x2201, 0x30, set_dpi_params(dpi), set);
}

/// The parameters that set a sensitivity name the first sensor and then the value, high byte
/// first.
pub proof fn sensitivities_are_sent_high_byte_first(dpi: u16, r: [u8; 3])
    requires
        call_ensures(encode_set_dpi, (dpi,), r),
    ensures
        r@[0] == 0,
        256 * r@[1] + r@[2] == dpi,
{
}

/// The sensitivity is read behind the number of the sensor, or alone; zero and less than two
/// bytes are none.
pub proof fn sensitivities_are_read_behind_the_sensor(
    reply: &[u8],
    r: Option<u16>,
    s: Option<u16>,
    none: Option<u16>,
)
    requires
        call_ensures(parse_current_dpi, (reply,), r),
        call_ensures(Hidpp20::read_current_dpi, (Some(reply),), s),
        call_ensures(Hidpp20::read_current_dpi, (None::<&[u8]>,), none),
    ensures
        s == r,
        none is None,
        reply@.len() >= 3 ==> (r is Some <==> 256 * reply@[1] + reply@[2] > 0),
        reply@.len() >= 3 && r is Some ==> r->Some_0 == 256 * reply@[1] + reply@[2],
        reply@.len() == 2 && r is Some ==> r->Some_0 == 256 * reply@[0] + reply@[1],
        reply@.len() == 2 ==> (r is Some <==> 256 * reply@[0] + reply@[1] > 0),
        reply@.len() < 2 ==> r is None,
{
}

/// A list of single values, high bytes first, reads as these values.
pub proof fn single_values_are_listed(raw: &[u8], r: Vec<u16>, n: int, i: int)
    requires
        call_ensures(parse_dpi_list, (raw,), r),
        0 <= i < n,
        raw@.len() == 2 * n || raw@.len() == 2 * n + 1 || (raw@.len() > 2 * n + 1 && raw@[2 * n] == 0
            && raw@[2 * n + 1] == 0),
        forall|k: int|
            #![trigger raw@[2 * k]]
            0 <= k < n ==> 0 < 256 * raw@[2 * k] + raw@[2 * k + 1] < 0xE000,
    ensures
        r@.len() == n,
        r@[i] == 256 * raw@[2 * i] + raw@[2 * i + 1],
{
    lemma_singles(raw@, 0, Seq::empty(), n);
}

/// Single values from a position on.
proof fn lemma_singles(raw: Seq<u8>, at: int, list: Seq<u16>, n: int)
    requires
        0 <= at <= n,
        raw.len() == 2 * n || raw.len() == 2 * n + 1 || (raw.len() > 2 * n + 1 && raw[2 * n] == 0
            && raw[2 * n + 1] == 0),
        forall|k: int|
            #![trigger raw[2 * k]]
            0 <= k < n ==> 0 < 256 * raw[2 * k] + raw[2 * k + 1] < 0xE000,
    ensures
        dpi_list_from(raw, (2 * at) as nat, list) == list + Seq::new(
            (n - at) as nat,
            |k: int| (256 * raw[2 * (at + k)] + raw[2 * (at + k) + 1]) as u16,
        ),
    decreases n - at,
{
    let rest = Seq::new(
        (n - at) as nat,
        |k: int| (256 * raw[2 * (at + k)] + raw[2 * (at + k) + 1]) as u16,
    );
    if at < n {
        let v = (256 * raw[2 * at] + raw[2 * at + 1]) as u16;
        assert(0 < 256 * raw[2 * at] + raw[2 * at + 1] < 0xE000);
        lemma_singles(raw, at + 1, list.push(v), n);
        assert(list.push(v) + Seq::new(
            (n - at - 1) as nat,
            |k: int| (256 * raw[2 * (at + 1 + k)] + raw[2 * (at + 1 + k) + 1]) as u16,
        ) =~= list + rest);
    } else {
        assert(list + rest =~= list);
    }
}

/// A value, a step and an end stand for the value and all that follow it by the step, up to
/// the end.
pub proof fn ranges_are_listed(raw: &[u8], r: Vec<u16>, first: int, step: int, end: int)
    requires
        call_ensures(parse_dpi_list, (raw,), r),
        raw@.len() == 6,
        256 * raw@[0] + raw@[1] == first,
        256 * raw@[2] + raw@[3] == 0xE000 + step,
        256 * raw@[4] + raw@[5] == end,
        0 < first < 0xE000,
        0 < step < 0x2000,
    ensures
        r@ == seq![first as u16] + range_values(first + step, step, end),
{
    reveal_with_fuel(dpi_list_from, 4);
    let a = Seq::<u16>::empty().push(first as u16);
    assert(a =~= seq![first as u16]);
}

/// The list is read in at most sixteen parts, each without the number of the sensor; two
/// zeros in a row and a failed question end it.
pub proof fn lists_are_read_in_parts(r: &mut DpiListReader, data: &[u8])
    requires
        old(r).wf(),
        !old(r).ended,
        call_ensures(DpiListReader::advance, (r, Some(data)), ()),
        data@.len() > 1,
    ensures
        final(r).part == old(r).part + 1,
        final(r).part <= 16,
        final(r).part == 16 ==> final(r).ended,
        final(r).raw@ == old(r).raw@ + data@.skip(1),
        (exists|i: int|
            1 <= i < data@.len() - 1 && #[trigger] data@[i] == 0 && data@[i + 1] == 0)
            ==> final(r).ended,
        final(r).ended && final(r).part < 16 ==> exists|i: int|
            1 <= i < data@.len() - 1 && #[trigger] data@[i] == 0 && data@[i + 1] == 0,
{
    let part = data@.skip(1);
    if exists|i: int| 1 <= i < data@.len() - 1 && #[trigger] data@[i] == 0 && data@[i + 1] == 0 {
        let i = choose|i: int| 1 <= i < data@.len() - 1 && #[trigger] data@[i] == 0 && data@[i + 1] == 0;
        assert(part[i - 1] == 0 && part[i] == 0);
        assert(has_end(part));
    }
    if has_end(part) {
        let i = choose|i: int| 0 <= i < part.len() - 1 && #[trigger] part[i] == 0 && part[i + 1] == 0;
        assert(data@[i + 1] == 0 && data@[i + 2] == 0);
    }
}

/// The list that was read is the one that its bytes spell, and a new reader has none.
pub proof fn lists_spell_what_was_read(
    fresh: DpiListReader,
    d: DpiListReader,
    raw: &[u8],
    r: Vec<u16>,
    s: Vec<u16>,
)
    requires
        call_ensures(DpiListReader::new, (), fresh),
        call_ensures(DpiListReader::read_dpi_list, (&d,), r),
        raw@ == d.raw@,
        call_ensures(parse_dpi_list, (raw,), s),
    ensures
        fresh.raw@.len() == 0 && fresh.part == 0 && !fresh.ended,
        r@ == s@,
{
}

} // verus!
