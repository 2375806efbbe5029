//! How often a device reports.

use crate::bytes::{bit, halves_add_up, nothing_is_halved, two, u16_be};
use crate::logitech::protocols::hidpp::byte_at;
use crate::logitech::protocols::hidpp::v2::feature::{EXT_REPORT_RATE, REPORT_RATE};
use crate::logitech::protocols::hidpp::v2::{asks, calls_ask, Hidpp20};
use crate::logitech::protocols::hidpp::HidppMessenger;
use crate::text::{decimal, decimal_string, owned};
use vstd::prelude::*;

verus! {

/// Asks for the extended rates.
pub const EXT_GET_LIST: u8 = 0x10;

/// Asks for the selected extended rate.
pub const EXT_GET_CURRENT: u8 = 0x20;

/// Selects an extended rate.
pub const EXT_SET: u8 = 0x30;

/// Asks for the rates.
pub const PLAIN_GET_LIST: u8 = 0x00;

/// Asks for the selected rate.
pub const PLAIN_GET_CURRENT: u8 = 0x10;

/// Selects a rate.
pub const PLAIN_SET: u8 = 0x20;

/// The extended rates: name and whole milliseconds.
pub const EXT_REPORT_RATES: [(&'static str, u8); 7] = [
    ("8ms", 8),
    ("4ms", 4),
    ("2ms", 2),
    ("1ms", 1),
    ("500µs", 0),
    ("250µs", 0),
    ("125µs", 0),
];

/// A rate on offer: what selects it, its milliseconds and its name.
#[derive(Debug)]
pub struct ReportRateOption {
    pub wire_index: u8,
    pub ms: u8,
    pub label: String,
}

/// The rates of a device, and which one is selected.
#[derive(Debug)]
pub struct ReportRateInfo {
    pub options: Vec<ReportRateOption>,
    pub current: Option<u8>,
    pub ext: bool,
}

/// Rates as values.
pub open spec fn rate_values(options: Seq<ReportRateOption>) -> Seq<(u8, u8, Seq<char>)> {
    Seq::new(options.len(), |i: int| (options[i].wire_index, options[i].ms, options[i].label@))
}

/// The extended rates among the first `n` whose flag is set.
pub open spec fn ext_rates(flags: nat, n: nat) -> Seq<(u8, u8, Seq<char>)>
    decreases n,
{
    if n == 0 {
        Seq::empty()
    } else {
        let i = n - 1;
        let before = ext_rates(flags, i as nat);
        if bit(flags, i as nat) {
            before.push((i as u8, EXT_REPORT_RATES@[i].1, EXT_REPORT_RATES@[i].0@))
        } else {
            before
        }
    }
}

/// Reads the extended rates from their flags.
pub fn ext_report_rate_options(flags: u16) -> (r: Vec<ReportRateOption>)
    ensures
        rate_values(r@) == ext_rates(flags as nat, 7),
{
    let mut out: Vec<ReportRateOption> = Vec::new();
    let mut rest: u16 = flags;
    let mut i: usize = 0;
    proof {
        nothing_is_halved(flags as nat);
    }
    while i < 7
        invariant
            i <= 7,
            rest == flags as nat / two(i as nat),
            rate_values(out@) =~= ext_rates(flags as nat, i as nat),
        decreases 7 - i,
    {
        if rest % 2 == 1 {
            let ghost before = rate_values(out@);
            let label: String = owned(EXT_REPORT_RATES[i].0);
            out.push(ReportRateOption { wire_index: i as u8, ms: EXT_REPORT_RATES[i].1, label });
            proof {
                assert(rate_values(out@) =~= before.push(
                    (
                        i as u8,
                        EXT_REPORT_RATES@[i as int].1,
                        EXT_REPORT_RATES@[i as int].0@,
                    ),
                ));
            }
        }
        proof {
            halves_add_up(flags as nat, i as nat);
        }
        rest = rest / 2;
        i = i + 1;
    }
    out
}

/// The rates among the first `n` whose flag is set: as many milliseconds as the number of
/// the flag, counted from 1.
pub open spec fn plain_rates(flags: nat, n: nat) -> Seq<(u8, u8, Seq<char>)>
    decreases n,
{
    if n == 0 {
        Seq::empty()
    } else {
        let before = plain_rates(flags, (n - 1) as nat);
        if bit(flags, (n - 1) as nat) {
            before.push((n as u8, n as u8, decimal(n) + "ms"@))
        } else {
            before
        }
    }
}

/// Reads the rates from their flags.
pub fn plain_report_rate_options(flags: u8) -> (r: Vec<ReportRateOption>)
    ensures
        rate_values(r@) == plain_rates(flags as nat, 8),
{
    let mut out: Vec<ReportRateOption> = Vec::new();
    let mut rest: u8 = flags;
    let mut i: u8 = 0;
    proof {
        nothing_is_halved(flags as nat);
    }
    while i < 8
        invariant
            i <= 8,
            rest == flags as nat / two(i as nat),
            rate_values(out@) =~= plain_rates(flags as nat, i as nat),
        decreases 8 - i,
    {
        if rest % 2 == 1 {
            let ghost before = rate_values(out@);
            let ms: u8 = i + 1;
            let mut label: String = decimal_string(ms as u64);
            label.append("ms");
            out.push(ReportRateOption { wire_index: ms, ms, label });
            proof {
                assert(rate_values(out@) =~= before.push((ms, ms, decimal(ms as nat) + "ms"@)));
            }
        }
        proof {
            halves_add_up(flags as nat, i as nat);
        }
        rest = rest / 2;
        i = i + 1;
    }
    out
}

/// The flags in a list of extended rates: two bytes, or one where there is no more.
pub open spec fn ext_flags(list: Seq<u8>) -> nat {
    if list.len() >= 2 {
        (list[0] as int * 256 + list[1] as int) as nat
    } else {
        byte_at(list, 0) as nat
    }
}

/// The first byte of a reply, if there is one.
pub open spec fn first_byte(reply: Seq<u8>) -> Option<u8> {
    if reply.len() > 0 {
        Some(reply[0])
    } else {
        None
    }
}

/// Whether `info` are the extended rates that both replies give.
pub open spec fn is_ext_info(info: ReportRateInfo, list: Seq<u8>, current: Seq<u8>) -> bool {
    &&& rate_values(info.options@) == ext_rates(ext_flags(list), 7)
    &&& info.current == first_byte(current)
    &&& info.ext
}

/// Whether `info` are the rates that both replies give.
pub open spec fn is_plain_info(info: ReportRateInfo, list: Seq<u8>, current: Seq<u8>) -> bool {
    &&& rate_values(info.options@) == plain_rates(byte_at(list, 0) as nat, 8)
    &&& info.current == first_byte(current)
    &&& !info.ext
}

/// The extended rates; none where a question failed.
fn read_ext_report_rates(list: Option<&[u8]>, current: Option<&[u8]>) -> (r: Option<
    ReportRateInfo,
>)
    ensures
        match (list, current) {
            (Some(l), Some(c)) => r is Some && is_ext_info(r->Some_0, l@, c@),
            _ => r is None,
        },
{
    match (list, current) {
        (Some(l), Some(c)) => {
            let flags: u16 = if l.len() >= 2 {
                u16_be(l[0], l[1])
            } else if l.len() == 1 {
                l[0] as u16
            } else {
                0
            };
            let current: Option<u8> = if c.len() > 0 {
                Some(c[0])
            } else {
                None
            };
            Some(ReportRateInfo { options: ext_report_rate_options(flags), current, ext: true })
        },
        _ => None,
    }
}

/// The rates; none where a question failed.
fn read_plain_report_rates(list: Option<&[u8]>, current: Option<&[u8]>) -> (r: Option<
    ReportRateInfo,
>)
    ensures
        match (list, current) {
            (Some(l), Some(c)) => r is Some && is_plain_info(r->Some_0, l@, c@),
            _ => r is None,
        },
{
    match (list, current) {
        (Some(l), Some(c)) => {
            let flags: u8 = if l.len() > 0 {
                l[0]
            } else {
                0
            };
            let current: Option<u8> = if c.len() > 0 {
                Some(c[0])
            } else {
                None
            };
            Some(
                ReportRateInfo { options: plain_report_rate_options(flags), current, ext: false },
            )
        },
        _ => None,
    }
}

impl Hidpp20 {
    /// The rates of a device: the extended ones where both questions about them were answered,
    /// else the plain ones.
    pub fn read_report_rates(
        ext_list: Option<&[u8]>,
        ext_current: Option<&[u8]>,
        plain_list: Option<&[u8]>,
        plain_current: Option<&[u8]>,
    ) -> (r: Option<ReportRateInfo>)
        ensures
            if ext_list is Some && ext_current is Some {
                r is Some && is_ext_info(r->Some_0, ext_list->Some_0@, ext_current->Some_0@)
            } else if plain_list is Some && plain_current is Some {
                r is Some && is_plain_info(r->Some_0, plain_list->Some_0@, plain_current->Some_0@)
            } else {
                r is None
            },
    {
        match read_ext_report_rates(ext_list, ext_current) {
            Some(info) => Some(info),
            None => read_plain_report_rates(plain_list, plain_current),
        }
    }
}

impl Hidpp20 {
    /// Asks for the extended rates.
    pub fn ext_rates_request(&self, msg: &mut HidppMessenger) -> (r: Option<Vec<u8>>)
        ensures
            self.calls(*old(msg), *final(msg), EXT_REPORT_RATE, EXT_GET_LIST, Seq::empty(), r),
    {
        self.request_plain(msg, EXT_REPORT_RATE, EXT_GET_LIST)
    }

    /// Asks for the selected extended rate.
    pub fn ext_current_rate_request(&self, msg: &mut HidppMessenger) -> (r: Option<Vec<u8>>)
        ensures
            self.calls(*old(msg), *final(msg), EXT_REPORT_RATE, EXT_GET_CURRENT, Seq::empty(), r),
    {
        self.request_plain(msg, EXT_REPORT_RATE, EXT_GET_CURRENT)
    }

    /// Asks for the rates.
    pub fn rates_request(&self, msg: &mut HidppMessenger) -> (r: Option<Vec<u8>>)
        ensures
            self.calls(*old(msg), *final(msg), REPORT_RATE, PLAIN_GET_LIST, Seq::empty(), r),
    {
        self.request_plain(msg, REPORT_RATE, PLAIN_GET_LIST)
    }

    /// Asks for the selected rate.
    pub fn current_rate_request(&self, msg: &mut HidppMessenger) -> (r: Option<Vec<u8>>)
        ensures
            self.calls(*old(msg), *final(msg), REPORT_RATE, PLAIN_GET_CURRENT, Seq::empty(), r),
    {
        self.request_plain(msg, REPORT_RATE, PLAIN_GET_CURRENT)
    }

    /// Selects a rate.
    pub fn set_report_rate(&self, msg: &mut HidppMessenger, wire_index: u8, ext: bool) -> (r:
        Option<Vec<u8>>)
        ensures
            if ext {
                self.calls(*old(msg), *final(msg), EXT_REPORT_RATE, EXT_SET, seq![wire_index], r)
            } else {
                self.calls(*old(msg), *final(msg), REPORT_RATE, PLAIN_SET, seq![wire_index], r)
            },
    {
        if ext {
            self.request_byte(msg, EXT_REPORT_RATE, EXT_SET, wire_index)
        } else {
            self.request_byte(msg, REPORT_RATE, PLAIN_SET, wire_index)
        }
    }
}

/// An extended rate is on offer exactly when its flag is set.
pub proof fn offered_rates_are_flagged(flags: nat, n: nat, w: u8)
    requires
        n <= 7,
    ensures
        (exists|k: int| 0 <= k < ext_rates(flags, n).len() && #[trigger] ext_rates(flags, n)[k].0
            == w) <==> w < n && bit(flags, w as nat),
    decreases n,
{
    if n > 0 {
        let m = (n - 1) as nat;
        offered_rates_are_flagged(flags, m, w);
        let before = ext_rates(flags, m);
        let all = ext_rates(flags, n);
        if exists|k: int| 0 <= k < before.len() && #[trigger] before[k].0 == w {
            let k = choose|k: int| 0 <= k < before.len() && #[trigger] before[k].0 == w;
            assert(all[k].0 == w);
        }
        if exists|k: int| 0 <= k < all.len() && #[trigger] all[k].0 == w {
            let k = choose|k: int| 0 <= k < all.len() && #[trigger] all[k].0 == w;
            if k < before.len() {
                assert(before[k].0 == w);
            }
        }
        if w == m && bit(flags, m) {
            assert(all[before.len() as int].0 == w);
        }
    }
}

/// Rates are asked for and set through feature 0x8061 where they are extended ones, and
/// through 0x8060 else.
pub proof fn rates_are_asked_for_and_set(
    d: Hidpp20,
    index: u8,
    ext: bool,
    m1: &mut HidppMessenger,
    m2: &mut HidppMessenger,
    m3: &mut HidppMessenger,
    m4: &mut HidppMessenger,
    m5: &mut HidppMessenger,
    ext_list: Option<Vec<u8>>,
    ext_current: Option<Vec<u8>>,
    list: Option<Vec<u8>>,
    current: Option<Vec<u8>>,
    set: Option<Vec<u8>>,
)
    requires
        call_ensures(Hidpp20::ext_rates_request, (&d, m1), ext_list),
        call_ensures(Hidpp20::ext_current_rate_request, (&d, m2), ext_current),
        call_ensures(Hidpp20::rates_request, (&d, m3), list),
        call_ensures(Hidpp20::current_rate_request, (&d, m4), current),
        call_ensures(Hidpp20::set_report_rate, (&d, m5, index, ext), set),
    ensures
        asks(d, 0x8061, 0x11, Seq::empty(), ext_list),
        asks(d, 0x8061, 0x21, Seq::empty(), ext_current),
        asks(d, 0x8060, 0x01, Seq::empty(), list),
        asks(d, 0x8060, 0x11, Seq::empty(), current),
        ext ==> asks(d, 0x8061, 0x31, seq![index], set),
        !ext ==> asks(d, 0x8060, 0x21, seq![index], set),
{
    calls_ask(d, *old(m1), *final(m1), 0x8061, 0x10, Seq::empty(), ext_list);
    calls_ask(d, *old(m2), *final(m2), 0x8061, 0x20, Seq::empty(), ext_current);
    calls_ask(d, *old(m3), *final(m3), 0x8060, 0x00, Seq::empty(), list);
    calls_ask(d, *old(m4), *final(m4), 0x8060, 0x10, Seq::empty(), current);
    if ext {
        calls_ask(d, *old(m5), *final(m5), 0x8061, 0x30, seq![index], set);
    } else {
        calls_ask(d, *old(m5), *final(m5), 0x8060, 0x20, seq![index], set);
    }
}

/// An extended rate that is on offer has its flag set, is selected by the flag's number and
/// has the milliseconds and the name of that number.
pub proof fn extended_rates_have_their_names(flags: u16, r: Vec<ReportRateOption>, k: int)
    requires
        call_ensures(ext_report_rate_options, (flags,), r),
        0 <= k < r@.len(),
    ensures
        ({
            let o = r@[k];
            &&& o.wire_index < 7
            &&& bit(flags as nat, o.wire_index as nat)
            &&& o.ms == seq![8u8, 4, 2, 1, 0, 0, 0][o.wire_index as int]
            &&& o.label@ == seq!["8ms", "4ms", "2ms", "1ms", "500µs", "250µs", "125µs"][o.wire_index as int]@
        }),
{
    assert(rate_values(r@)[k] == (r@[k].wire_index, r@[k].ms, r@[k].label@));
    lemma_ext_rate(flags as nat, 7, k);
}

/// An extended rate on offer.
proof fn lemma_ext_rate(flags: nat, n: nat, k: int)
    requires
        n <= 7,
        0 <= k < ext_rates(flags, n).len(),
    ensures
        ({
            let o = ext_rates(flags, n)[k];
            &&& o.0 < n
            &&& bit(flags, o.0 as nat)
            &&& o.1 == seq![8u8, 4, 2, 1, 0, 0, 0][o.0 as int]
            &&& o.2 == seq!["8ms", "4ms", "2ms", "1ms", "500µs", "250µs", "125µs"][o.0 as int]@
        }),
    decreases n,
{
    let t = EXT_REPORT_RATES;
    assert(t@[0].1 == 8 && t@[1].1 == 4 && t@[2].1 == 2 && t@[3].1 == 1 && t@[4].1 == 0 && t@[5].1
        == 0 && t@[6].1 == 0);
    assert(t@[0].0 == "8ms" && t@[1].0 == "4ms" && t@[2].0 == "2ms" && t@[3].0 == "1ms" && t@[4].0
        == "500µs" && t@[5].0 == "250µs" && t@[6].0 == "125µs");
    if n > 0 {
        let before = ext_rates(flags, (n - 1) as nat);
        if k < before.len() {
            lemma_ext_rate(flags, (n - 1) as nat, k);
        }
    }
}

/// A plain rate that is on offer has its flag set and is selected by its milliseconds, which
/// are one more than the flag's number and part of its name; every flag that is set gives
/// one.
pub proof fn plain_rates_are_milliseconds(flags: u8, r: Vec<ReportRateOption>, k: int)
    requires
        call_ensures(plain_report_rate_options, (flags,), r),
        0 <= k < r@.len(),
    ensures
        ({
            let o = r@[k];
            &&& 1 <= o.ms <= 8
            &&& o.wire_index == o.ms
            &&& bit(flags as nat, (o.ms - 1) as nat)
            &&& o.label@ == decimal(o.ms as nat) + seq!['m', 's']
        }),
{
    assert(rate_values(r@)[k] == (r@[k].wire_index, r@[k].ms, r@[k].label@));
    lemma_plain_rate(flags as nat, 8, k);
}

/// A plain rate on offer.
proof fn lemma_plain_rate(flags: nat, n: nat, k: int)
    requires
        n <= 8,
        0 <= k < plain_rates(flags, n).len(),
    ensures
        ({
            let o = plain_rates(flags, n)[k];
            &&& 1 <= o.1 <= n
            &&& o.0 == o.1
            &&& bit(flags, (o.1 - 1) as nat)
            &&& o.2 == decimal(o.1 as nat) + seq!['m', 's']
        }),
    decreases n,
{
    reveal_strlit("ms");
    assert("ms"@ =~= seq!['m', 's']);
    if n > 0 {
        let before = plain_rates(flags, (n - 1) as nat);
        if k < before.len() {
            lemma_plain_rate(flags, (n - 1) as nat, k);
        }
    }
}

/// A plain rate is on offer exactly where the flag below its milliseconds is set.
pub proof fn offered_plain_rates_are_flagged(flags: nat, n: nat, ms: u8)
    requires
        n <= 8,
    ensures
        (exists|k: int| 0 <= k < plain_rates(flags, n).len() && #[trigger] plain_rates(flags, n)[k].1
            == ms) <==> 1 <= ms <= n && bit(flags, (ms - 1) as nat),
    decreases n,
{
    if n > 0 {
        let before = plain_rates(flags, (n - 1) as nat);
        let after = plain_rates(flags, n);
        offered_plain_rates_are_flagged(flags, (n - 1) as nat, ms);
        if exists|k: int| 0 <= k < before.len() && #[trigger] before[k].1 == ms {
            let k = choose|k: int| 0 <= k < before.len() && #[trigger] before[k].1 == ms;
            assert(after[k] == before[k]);
        }
        if exists|k: int| 0 <= k < after.len() && #[trigger] after[k].1 == ms {
            let k = choose|k: int| 0 <= k < after.len() && #[trigger] after[k].1 == ms;
            if k < before.len() {
                assert(before[k] == after[k]);
            }
        }
        if bit(flags, (n - 1) as nat) && ms == n {
            assert(after[before.len() as int].1 == ms);
        }
    }
}

/// The extended rates are taken where both replies about them came, else the plain ones; the
/// flags come high byte first, and the selected rate is the first byte of its reply.
pub proof fn extended_rates_come_first(
    ext_list: &[u8],
    ext_current: &[u8],
    list: &[u8],
    current: &[u8],
    both: Option<ReportRateInfo>,
    plain: Option<ReportRateInfo>,
    none: Option<ReportRateInfo>,
    ext_options: Vec<ReportRateOption>,
    plain_options: Vec<ReportRateOption>,
)
    requires
        ext_list@.len() >= 2,
        ext_current@.len() >= 1,
        list@.len() >= 1,
        current@.len() >= 1,
        call_ensures(
            Hidpp20::read_report_rates,
            (Some(ext_list), Some(ext_current), Some(list), Some(current)),
            both,
        ),
        call_ensures(
            Hidpp20::read_report_rates,
            (Some(ext_list), None::<&[u8]>, Some(list), Some(current)),
            plain,
        ),
        call_ensures(
            Hidpp20::read_report_rates,
            (None::<&[u8]>, None::<&[u8]>, Some(list), None::<&[u8]>),
            none,
        ),
        call_ensures(
            ext_report_rate_options,
            ((256 * ext_list@[0] + ext_list@[1]) as u16,),
            ext_options,
        ),
        call_ensures(plain_report_rate_options, (list@[0],), plain_options),
    ensures
        both is Some && both->Some_0.ext && both->Some_0.current == Some(ext_current@[0]),
        rate_values(both->Some_0.options@) == rate_values(ext_options@),
        plain is Some && !plain->Some_0.ext && plain->Some_0.current == Some(current@[0]),
        rate_values(plain->Some_0.options@) == rate_values(plain_options@),
        none is None,
{
}

} // verus!
