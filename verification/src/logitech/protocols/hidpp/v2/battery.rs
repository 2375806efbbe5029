//! Battery level, reported as a percentage or as a cell voltage.

use crate::bytes::{be16, u16_be};
use crate::logitech::protocols::hidpp::v2::feature::{
    ADC_MEASUREMENT, BATTERY_VOLTAGE, UNIFIED_BATTERY,
};
use crate::logitech::protocols::hidpp::v2::{asks, index_in, Hidpp20};
use crate::logitech::protocols::hidpp::{
    byte_at, feature_packet, odd_bytes, HidppMessenger, InflightRequest,
};
use vstd::prelude::*;

verus! {

/// Asks for the percentage.
pub const UNIFIED_GET_STATUS: u8 = 0x10;

/// Asks for the voltage.
pub const VOLTAGE_GET: u8 = 0x00;

/// Where a device reports its battery, with the index of the feature.
#[derive(Debug, Clone, Copy, PartialEq, Eq, Structural)]
pub enum BatterySource {
    Absent,
    Unified(u8),
    Voltage(u8),
}

/// A battery level.
#[derive(Debug, Clone, Copy, PartialEq, Eq, Structural)]
pub struct BatteryReading {
    pub percent: u8,
    pub charging: bool,
}

/// The discharge curve: percentage and millivolts, falling.
pub const VOLTAGE_CURVE: [(u8, u16); 13] = [
    (100, 4186),
    (90, 4067),
    (80, 3989),
    (70, 3922),
    (60, 3859),
    (50, 3811),
    (40, 3778),
    (30, 3751),
    (20, 3717),
    (10, 3671),
    (5, 3646),
    (2, 3579),
    (0, 3500),
];

/// The percentage of a voltage on the line from point `i` of the curve to the next, rounded
/// down.
pub open spec fn on_segment(i: int, mv: int) -> int {
    let hi = VOLTAGE_CURVE@[i];
    let lo = VOLTAGE_CURVE@[i + 1];
    lo.0 + ((hi.0 - lo.0) * (mv - lo.1)) / (hi.1 - lo.1)
}

/// The percentage of a voltage not above point `i` of the curve.
pub open spec fn percent_from(i: int, mv: int) -> int
    decreases 12 - i,
{
    if i >= 12 {
        0
    } else if mv >= VOLTAGE_CURVE@[i + 1].1 {
        on_segment(i, mv)
    } else {
        percent_from(i + 1, mv)
    }
}

/// The percentage of a voltage: on the curve, full above and empty below it.
pub open spec fn percent_of(mv: int) -> int {
    if mv >= 4186 {
        100
    } else if mv <= 3500 {
        0
    } else {
        percent_from(0, mv)
    }
}

/// The curve falls.
proof fn lemma_curve(i: int)
    requires
        0 <= i < 12,
    ensures
        VOLTAGE_CURVE@[i].1 > VOLTAGE_CURVE@[i + 1].1,
        VOLTAGE_CURVE@[i].0 > VOLTAGE_CURVE@[i + 1].0,
        VOLTAGE_CURVE@[i].0 <= 100,
        VOLTAGE_CURVE@[i].1 <= 4186,
        VOLTAGE_CURVE@[i + 1].1 >= 3500,
{
    if i == 0 {
    } else if i == 1 {
    } else if i == 2 {
    } else if i == 3 {
    } else if i == 4 {
    } else if i == 5 {
    } else if i == 6 {
    } else if i == 7 {
    } else if i == 8 {
    } else if i == 9 {
    } else if i == 10 {
    } else {
    }
}

/// A segment runs from one of its percentages to the other, and does not fall.
proof fn lemma_segment(i: int, a: int, b: int)
    requires
        0 <= i < 12,
        VOLTAGE_CURVE@[i + 1].1 <= a <= b <= VOLTAGE_CURVE@[i].1,
    ensures
        VOLTAGE_CURVE@[i + 1].0 <= on_segment(i, a) <= on_segment(i, b) <= VOLTAGE_CURVE@[i].0,
        0 <= (VOLTAGE_CURVE@[i].0 - VOLTAGE_CURVE@[i + 1].0) * (a - VOLTAGE_CURVE@[i + 1].1)
            <= 100 * 686,
{
    lemma_curve(i);
    let hi = VOLTAGE_CURVE@[i];
    let lo = VOLTAGE_CURVE@[i + 1];
    let rise = hi.0 - lo.0;
    let span = hi.1 - lo.1;
    let x = a - lo.1;
    let y = b - lo.1;
    assert(0 <= rise * x <= rise * y && rise * y <= rise * span && rise * x <= 100 * 686)
        by (nonlinear_arith)
        requires
            0 <= rise <= 100,
            0 <= x <= y <= span <= 686,
    ;
    assert(0 <= (rise * x) / span && (rise * x) / span <= (rise * y) / span && (rise * y) / span
        <= rise) by (nonlinear_arith)
        requires
            0 <= rise * x <= rise * y,
            rise * y <= rise * span,
            span > 0,
    ;
}

/// A percentage does not pass that of the point it starts from.
proof fn lemma_percent_bound(i: int, mv: int)
    requires
        0 <= i <= 12,
        3500 <= mv <= VOLTAGE_CURVE@[i].1,
    ensures
        0 <= percent_from(i, mv) <= VOLTAGE_CURVE@[i].0,
    decreases 12 - i,
{
    if i < 12 {
        lemma_curve(i);
        if mv >= VOLTAGE_CURVE@[i + 1].1 {
            lemma_segment(i, mv, mv);
        } else {
            lemma_percent_bound(i + 1, mv);
        }
    }
}

/// Percentages do not fall with the voltage.
proof fn lemma_percent_rises(i: int, a: int, b: int)
    requires
        0 <= i <= 12,
        3500 <= a <= b <= VOLTAGE_CURVE@[i].1,
    ensures
        percent_from(i, a) <= percent_from(i, b),
    decreases 12 - i,
{
    if i < 12 {
        lemma_curve(i);
        let next = VOLTAGE_CURVE@[i + 1].1 as int;
        if a >= next {
            lemma_segment(i, a, b);
        } else if b >= next {
            lemma_segment(i, b, b);
            lemma_percent_bound(i + 1, a);
        } else {
            lemma_percent_rises(i + 1, a, b);
        }
    }
}

/// A higher voltage never reads as a lower percentage, and percentages stay within 0 and
/// 100.
pub proof fn percentage_rises_with_voltage(a: u16, b: u16)
    requires
        a <= b,
    ensures
        0 <= percent_of(a as int) <= percent_of(b as int) <= 100,
{
    if 3500 < a && a < 4186 {
        lemma_percent_bound(0, a as int);
    }
    if 3500 < b && b < 4186 {
        lemma_percent_bound(0, b as int);
        if 3500 < a {
            lemma_percent_rises(0, a as int, b as int);
        }
    }
}

/// Reads a percentage off the curve.
pub fn voltage_to_percent(mv: u16) -> (r: u8)
    ensures
        r == percent_of(mv as int),
        r <= 100,
{
    if mv >= 4186 {
        return 100;
    }
    if mv <= 3500 {
        return 0;
    }
    let mut i: usize = 0;
    while i < 12
        invariant
            i <= 12,
            3500 < mv < 4186,
            mv <= VOLTAGE_CURVE@[i as int].1,
            percent_from(i as int, mv as int) == percent_of(mv as int),
        decreases 12 - i,
    {
        let (hi_pct, hi_mv): (u8, u16) = VOLTAGE_CURVE[i];
        let (lo_pct, lo_mv): (u8, u16) = VOLTAGE_CURVE[i + 1];
        proof {
            lemma_curve(i as int);
        }
        if mv >= lo_mv {
            proof {
                lemma_segment(i as int, mv as int, mv as int);
            }
            let span: u32 = (hi_mv - lo_mv) as u32;
            let frac: u32 = (mv - lo_mv) as u32;
            let rise: u32 = (hi_pct - lo_pct) as u32;
            let pct: u32 = lo_pct as u32 + rise * frac / span;
            return pct as u8;
        }
        i = i + 1;
    }
    0
}

/// The level in a voltage reply: millivolts, then 3 while charging. No voltage is no
/// reading.
pub open spec fn voltage_reading(reply: Seq<u8>) -> Option<BatteryReading> {
    if reply.len() < 2 || be16(reply[0], reply[1]) == 0 {
        None
    } else {
        Some(
            BatteryReading {
                percent: percent_of(be16(reply[0], reply[1])) as u8,
                charging: reply.len() > 2 && reply[2] == 0x03,
            },
        )
    }
}

/// Reads the level from a voltage reply: percentage, and whether it is charging.
pub fn parse_battery_voltage(reply: &[u8]) -> (r: Option<(u8, bool)>)
    ensures
        match (r, voltage_reading(reply@)) {
            (Some(p), Some(b)) => p.0 == b.percent && p.1 == b.charging,
            (None, None) => true,
            _ => false,
        },
{
    if reply.len() < 2 {
        return None;
    }
    let mv: u16 = u16_be(reply[0], reply[1]);
    if mv == 0 {
        return None;
    }
    let charging = reply.len() > 2 && reply[2] == 0x03;
    Some((voltage_to_percent(mv), charging))
}

/// The level in a percentage reply.
pub open spec fn unified_reading(reply: Seq<u8>) -> Option<BatteryReading> {
    if reply.len() == 0 {
        None
    } else {
        Some(
            BatteryReading {
                percent: if reply[0] > 100 {
                    100
                } else {
                    reply[0]
                },
                charging: byte_at(reply, 2) != 0,
            },
        )
    }
}

/// The source of a device's battery level: the percentage where there is one.
pub open spec fn source_in(table: Map<u16, u8>) -> BatterySource {
    match index_in(table, UNIFIED_BATTERY) {
        Some(i) => BatterySource::Unified(i),
        None => match index_in(table, ADC_MEASUREMENT) {
            Some(i) => BatterySource::Voltage(i),
            None => match index_in(table, BATTERY_VOLTAGE) {
                Some(i) => BatterySource::Voltage(i),
                None => BatterySource::Absent,
            },
        },
    }
}

impl Hidpp20 {
    /// Finds the source of the battery level.
    pub fn battery_source(&self) -> (r: BatterySource)
        ensures
            r == source_in(self.features@),
    {
        match self.idx(UNIFIED_BATTERY) {
            Some(i) => BatterySource::Unified(i),
            None => match self.idx(ADC_MEASUREMENT) {
                Some(i) => BatterySource::Voltage(i),
                None => match self.idx(BATTERY_VOLTAGE) {
                    Some(i) => BatterySource::Voltage(i),
                    None => BatterySource::Absent,
                },
            },
        }
    }

    /// Asks a source for the level.
    pub fn battery_request(&self, msg: &mut HidppMessenger, source: BatterySource) -> (r: Option<
        Vec<u8>,
    >)
        ensures
            final(msg).force_long == old(msg).force_long,
            match (source, r) {
                (BatterySource::Unified(idx), Some(p)) => {
                    &&& p@ == feature_packet(
                        old(msg).force_long,
                        self.devnum,
                        idx,
                        UNIFIED_GET_STATUS,
                        Seq::empty(),
                    )
                    &&& final(msg).inflight == Some(
                        InflightRequest { devnum: self.devnum, sub_id: idx },
                    )
                },
                (BatterySource::Voltage(idx), Some(p)) => {
                    &&& p@ == feature_packet(
                        old(msg).force_long,
                        self.devnum,
                        idx,
                        VOLTAGE_GET,
                        seq![0u8],
                    )
                    &&& final(msg).inflight == Some(
                        InflightRequest { devnum: self.devnum, sub_id: idx },
                    )
                },
                (BatterySource::Absent, None) => *final(msg) == *old(msg),
                _ => false,
            },
    {
        match source {
            BatterySource::Absent => None,
            BatterySource::Unified(idx) => {
                let params: [u8; 0] = [];
                proof {
                    assert(params@ =~= Seq::<u8>::empty());
                }
                Some(self.call(msg, idx, UNIFIED_GET_STATUS, &params))
            },
            BatterySource::Voltage(idx) => {
                let params: [u8; 1] = [0x00];
                proof {
                    assert(params@ =~= seq![0u8]);
                }
                Some(self.call(msg, idx, VOLTAGE_GET, &params))
            },
        }
    }
}

impl Hidpp20 {
    /// The level in a source's reply; none where the question failed.
    pub fn read_battery(source: BatterySource, reply: Option<&[u8]>) -> (r: Option<BatteryReading>)
        ensures
            r == match (source, reply) {
                (BatterySource::Unified(_), Some(data)) => unified_reading(data@),
                (BatterySource::Voltage(_), Some(data)) => voltage_reading(data@),
                _ => None,
            },
    {
        match (source, reply) {
            (BatterySource::Unified(_), Some(data)) => {
                if data.len() == 0 {
                    return None;
                }
                let percent: u8 = if data[0] > 100 {
                    100
                } else {
                    data[0]
                };
                let charging = data.len() > 2 && data[2] != 0;
                Some(BatteryReading { percent, charging })
            },
            (BatterySource::Voltage(_), Some(data)) => match parse_battery_voltage(data) {
                Some((percent, charging)) => Some(BatteryReading { percent, charging }),
                None => None,
            },
            _ => None,
        }
    }
}

/// Every level that is read is a percentage.
pub proof fn readings_are_percentages(reply: Seq<u8>)
    ensures
        match voltage_reading(reply) {
            Some(b) => b.percent <= 100,
            None => true,
        },
        match unified_reading(reply) {
            Some(b) => b.percent <= 100,
            None => true,
        },
{
    if reply.len() >= 2 {
        let mv = be16(reply[0], reply[1]) as u16;
        percentage_rises_with_voltage(mv, mv);
    }
}

/// A percentage reply of 100 or less is reported as it stands and a higher one as 100; the
/// device charges where the third byte is not zero.
pub proof fn percentages_are_reported_as_they_stand(
    reply: &[u8],
    index: u8,
    r: Option<BatteryReading>,
    none: Option<BatteryReading>,
    absent: Option<BatteryReading>,
)
    requires
        call_ensures(Hidpp20::read_battery, (BatterySource::Unified(index), Some(reply)), r),
        call_ensures(Hidpp20::read_battery, (BatterySource::Unified(index), None::<&[u8]>), none),
        call_ensures(Hidpp20::read_battery, (BatterySource::Absent, Some(reply)), absent),
    ensures
        r is Some <==> reply@.len() > 0,
        r matches Some(b) ==> {
            &&& reply@[0] <= 100 ==> b.percent == reply@[0]
            &&& reply@[0] > 100 ==> b.percent == 100
            &&& b.charging <==> reply@.len() >= 3 && reply@[2] > 0
        },
        none is None,
        absent is None,
{
}

/// A fuller battery is never reported as an emptier one.
pub proof fn levels_rise_with_the_reply(
    a: &[u8],
    b: &[u8],
    source: BatterySource,
    ra: Option<BatteryReading>,
    rb: Option<BatteryReading>,
)
    requires
        call_ensures(Hidpp20::read_battery, (source, Some(a)), ra),
        call_ensures(Hidpp20::read_battery, (source, Some(b)), rb),
        a@.len() >= 2,
        b@.len() >= 2,
        source is Unified ==> a@[0] <= b@[0],
        source is Voltage ==> 256 * a@[0] + a@[1] <= 256 * b@[0] + b@[1],
        ra is Some,
        rb is Some,
    ensures
        ra->Some_0.percent <= rb->Some_0.percent,
{
    if source is Voltage {
        percentage_rises_with_voltage((256 * a@[0] + a@[1]) as u16, (256 * b@[0] + b@[1]) as u16);
    }
}

/// A voltage reply is the millivolts, high byte first, and then three while it charges; no
/// voltage is no reading.
pub proof fn voltages_are_read_high_byte_first(
    reply: &[u8],
    index: u8,
    r: Option<BatteryReading>,
    percent: u8,
)
    requires
        call_ensures(Hidpp20::read_battery, (BatterySource::Voltage(index), Some(reply)), r),
        call_ensures(voltage_to_percent, ((256 * reply@[0] + reply@[1]) as u16,), percent),
    ensures
        r is Some <==> reply@.len() >= 2 && (reply@[0] > 0 || reply@[1] > 0),
        r matches Some(b) ==> b.percent == percent && (b.charging <==> reply@.len() >= 3 && reply@[2]
            == 3),
{
}

/// The discharge curve: a voltage between two of its points reads as the percentage on the
/// line between them, rounded down; above the curve the battery is full, below it empty.
pub proof fn voltages_follow_the_curve(mv: u16, r: u8)
    requires
        call_ensures(voltage_to_percent, (mv,), r),
    ensures
        mv >= 4186 ==> r == 100,
        mv <= 3500 ==> r == 0,
        4067 <= mv <= 4186 ==> (r - 90) * 119 <= 10 * (mv - 4067) < (r - 90 + 1) * 119,
        3989 <= mv <= 4067 ==> (r - 80) * 78 <= 10 * (mv - 3989) < (r - 80 + 1) * 78,
        3922 <= mv <= 3989 ==> (r - 70) * 67 <= 10 * (mv - 3922) < (r - 70 + 1) * 67,
        3859 <= mv <= 3922 ==> (r - 60) * 63 <= 10 * (mv - 3859) < (r - 60 + 1) * 63,
        3811 <= mv <= 3859 ==> (r - 50) * 48 <= 10 * (mv - 3811) < (r - 50 + 1) * 48,
        3778 <= mv <= 3811 ==> (r - 40) * 33 <= 10 * (mv - 3778) < (r - 40 + 1) * 33,
        3751 <= mv <= 3778 ==> (r - 30) * 27 <= 10 * (mv - 3751) < (r - 30 + 1) * 27,
        3717 <= mv <= 3751 ==> (r - 20) * 34 <= 10 * (mv - 3717) < (r - 20 + 1) * 34,
        3671 <= mv <= 3717 ==> (r - 10) * 46 <= 10 * (mv - 3671) < (r - 10 + 1) * 46,
        3646 <= mv <= 3671 ==> (r - 5) * 25 <= 5 * (mv - 3646) < (r - 5 + 1) * 25,
        3579 <= mv <= 3646 ==> (r - 2) * 67 <= 3 * (mv - 3579) < (r - 2 + 1) * 67,
        3500 <= mv <= 3579 ==> (r - 0) * 79 <= 2 * (mv - 3500) < (r - 0 + 1) * 79,
{
    reveal_with_fuel(percent_from, 14);
    let c = VOLTAGE_CURVE;
    assert(c@[0].0 == 100 && c@[0].1 == 4186 && c@[1].0 == 90 && c@[1].1 == 4067 && c@[2].0 == 80
        && c@[2].1 == 3989 && c@[3].0 == 70 && c@[3].1 == 3922 && c@[4].0 == 60 && c@[4].1 == 3859
        && c@[5].0 == 50 && c@[5].1 == 3811 && c@[6].0 == 40 && c@[6].1 == 3778 && c@[7].0 == 30
        && c@[7].1 == 3751 && c@[8].0 == 20 && c@[8].1 == 3717 && c@[9].0 == 10 && c@[9].1 == 3671
        && c@[10].0 == 5 && c@[10].1 == 3646 && c@[11].0 == 2 && c@[11].1 == 3579 && c@[12].0 == 0
        && c@[12].1 == 3500);
}

/// The level is asked for where the device has it: as a percentage through feature 0x1004,
/// else as a voltage through 0x1F20 or 0x1001.
pub proof fn levels_are_asked_for(
    d: Hidpp20,
    source: BatterySource,
    m: &mut HidppMessenger,
    r: Option<Vec<u8>>,
)
    requires
        call_ensures(Hidpp20::battery_source, (&d,), source),
        call_ensures(Hidpp20::battery_request, (&d, m, source), r),
    ensures
        source is Absent <==> !d.features@.contains_key(0x1004) && !d.features@.contains_key(0x1F20)
            && !d.features@.contains_key(0x1001),
        r is Some <==> source !is Absent,
        d.features@.contains_key(0x1004) ==> asks(d, 0x1004, 0x11, Seq::empty(), r),
        !d.features@.contains_key(0x1004) && d.features@.contains_key(0x1F20) ==> asks(
            d,
            0x1F20,
            0x01,
            seq![0u8],
            r,
        ),
        !d.features@.contains_key(0x1004) && !d.features@.contains_key(0x1F20)
            && d.features@.contains_key(0x1001) ==> asks(d, 0x1001, 0x01, seq![0u8], r),
{
    odd_bytes(0x10);
    odd_bytes(0x00);
}

/// A voltage reply reads the same whether or not it is known to be the battery's.
pub proof fn voltages_are_read_alike(
    reply: &[u8],
    index: u8,
    r: Option<(u8, bool)>,
    s: Option<BatteryReading>,
)
    requires
        call_ensures(parse_battery_voltage, (reply,), r),
        call_ensures(Hidpp20::read_battery, (BatterySource::Voltage(index), Some(reply)), s),
    ensures
        r is Some <==> s is Some,
        r is Some ==> r->Some_0.0 == s->Some_0.percent && r->Some_0.1 == s->Some_0.charging,
{
}

} // verus!
