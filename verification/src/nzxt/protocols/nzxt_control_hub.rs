//! NZXT Control Hub: fan speeds, fan duties and the RGB frames of its channels.

use crate::nzxt::protocols::nzxt::{grb_bytes, lemma_grb, push_grb};
use crate::rgb::RgbColor;
use std::collections::HashMap;
use vstd::prelude::*;

verus! {

/// Fan channels of the hub.
pub const FAN_CHANNELS: usize = 5;

/// Most LEDs that the firmware takes on one channel.
pub const MAX_NZXT_CHAIN_LEDS: u32 = 96;

/// Pause between two reads of the polling loop, in milliseconds.
pub const POLL_YIELD_MS: u64 = 10;

/// Length of a report.
pub const READ_SIZE: usize = 64;

/// Lighting command.
pub const CMD_LIGHTING: u8 = 0x26;

/// Initialisation command.
pub const CMD_INIT: u8 = 0x60;

/// Fan speed command.
pub const CMD_SET_FAN_SPEED: u8 = 0x62;

/// Sets the update interval.
pub const INIT_SET_UPDATE_INTERVAL: u8 = 0x02;

/// Starts fan detection.
pub const INIT_DETECT_FANS: u8 = 0x03;

/// Lighting data.
pub const LIGHTING_DATA: u8 = 0x04;

/// Lighting commit.
pub const LIGHTING_COMMIT: u8 = 0x06;

/// Fan configuration report.
pub const REPORT_FAN_CONFIG: u8 = 0x61;

/// Fan status report.
pub const REPORT_FAN_STATUS: u8 = 0x67;

/// What is known about a fan channel. The type is 0 for none, 1 for DC, 2 for PWM.
#[derive(Debug, Clone, Copy, PartialEq, Eq, Structural)]
pub struct FanChannelState {
    pub rpm: u32,
    pub duty: u8,
    pub fan_type: u8,
}

/// Why a request was refused.
#[derive(Debug, Clone, Copy, PartialEq, Eq, Structural)]
pub enum HubError {
    ChannelOutOfRange { channel: u8 },
}

/// A channel about which nothing is known.
pub open spec fn unknown_fan() -> FanChannelState {
    FanChannelState { rpm: 0, duty: 0, fan_type: 0 }
}

/// The state of a channel, or that of an unknown one.
pub open spec fn fan_at(cache: Map<u8, FanChannelState>, channel: u8) -> FanChannelState {
    if cache.contains_key(channel) {
        cache[channel]
    } else {
        unknown_fan()
    }
}

/// Whether a report is a fan speed report.
pub open spec fn is_speed_report(pkt: Seq<u8>) -> bool {
    pkt.len() >= 45 && pkt[0] == REPORT_FAN_STATUS && pkt[1] == 0x02
}

/// Speed and duty of fan `i` in a speed report.
pub open spec fn speed_entry(pkt: Seq<u8>, i: int) -> (u32, u8) {
    ((pkt[24 + 2 * i] + 256 * pkt[25 + 2 * i]) as u32, pkt[40 + i])
}

/// Whether a report is a fan configuration report.
pub open spec fn is_config_report(pkt: Seq<u8>) -> bool {
    pkt.len() >= 21 && pkt[0] == REPORT_FAN_CONFIG && pkt[1] == 0x03
}

/// What the first `n` channels of the cache are after a report.
pub open spec fn cache_after(
    cache: Map<u8, FanChannelState>,
    pkt: Seq<u8>,
    n: nat,
) -> Map<u8, FanChannelState>
    decreases n,
{
    if n == 0 {
        cache
    } else {
        let before = cache_after(cache, pkt, (n - 1) as nat);
        let ch = (n - 1) as u8;
        if is_speed_report(pkt) {
            before.insert(
                ch,
                FanChannelState {
                    rpm: speed_entry(pkt, n - 1).0,
                    duty: speed_entry(pkt, n - 1).1,
                    fan_type: pkt[16 + n - 1],
                },
            )
        } else if is_config_report(pkt) {
            before.insert(
                ch,
                FanChannelState { fan_type: pkt[16 + n - 1], ..fan_at(before, ch) },
            )
        } else {
            before
        }
    }
}

/// The commit packet of a channel.
pub open spec fn commit_packet(channel_byte: u8) -> Seq<u8> {
    seq![
        CMD_LIGHTING,
        LIGHTING_COMMIT,
        channel_byte,
        0x00,
        0x01,
        0x00,
        0x00,
        0x18,
        0x00,
        0x00,
        0x80,
        0x00,
        0x32,
        0x00,
        0x00,
        0x01,
    ] + Seq::new(48, |i: int| 0u8)
}

/// The fan-duty packet of a channel.
pub open spec fn duty_packet(channel: u8, duty: u8) -> Seq<u8> {
    Seq::new(
        11,
        |i: int|
            if i == 0 {
                CMD_SET_FAN_SPEED
            } else if i == 1 {
                1
            } else if i == 2 {
                1u8 << channel
            } else if i == 3 + channel {
                duty
            } else {
                0
            },
    )
}

/// The firmware control byte for an update interval: 0 is 250 ms, `n` is
/// `488 + 256 * (n - 1)` ms.
pub open spec fn interval_byte(interval_ms: u32) -> u8 {
    if interval_ms <= 250 {
        0
    } else {
        let over = if interval_ms > 488 { interval_ms - 488 } else { 0 };
        if over / 256 + 1 < 255 {
            (over / 256 + 1) as u8
        } else {
            255
        }
    }
}

/// The hub: what is known about its fans.
#[derive(Debug)]
pub struct NzxtControlHubProtocol {
    pub fan_cache: HashMap<u8, FanChannelState>,
}

impl NzxtControlHubProtocol {
    /// A hub about whose fans nothing is known.
    pub fn new() -> (r: Self)
        ensures
            r.fan_cache@ == Map::<u8, FanChannelState>::empty(),
    {
        NzxtControlHubProtocol { fan_cache: HashMap::new() }
    }

    /// The two packets that show a frame on a channel: GRB data, then a commit.
    pub fn write_rgb_frame(channel: u8, colors: &[RgbColor]) -> (r: Result<
        (Vec<u8>, [u8; 64]),
        HubError,
    >)
        ensures
            channel >= 8 ==> r == Err::<(Vec<u8>, [u8; 64]), HubError>(
                HubError::ChannelOutOfRange { channel },
            ),
            channel < 8 ==> {
                &&& r is Ok
                &&& r->Ok_0.0@ == seq![CMD_LIGHTING, LIGHTING_DATA, 1u8 << channel, 0x00]
                    + grb_bytes(colors@)
                &&& r->Ok_0.1@ == commit_packet(1u8 << channel)
            },
    {
        if channel >= 8 {
            return Err(HubError::ChannelOutOfRange { channel });
        }
        let channel_byte: u8 = 1u8 << channel;
        let mut pkt: Vec<u8> = vec![CMD_LIGHTING, LIGHTING_DATA, channel_byte, 0x00];
        push_grb(&mut pkt, colors);
        let mut apply: [u8; 64] = [0u8; 64];
        apply[0] = CMD_LIGHTING;
        apply[1] = LIGHTING_COMMIT;
        apply[2] = channel_byte;
        apply[4] = 0x01;
        apply[7] = 0x18;
        apply[10] = 0x80;
        apply[12] = 0x32;
        apply[15] = 0x01;
        proof {
            assert(apply@ =~= commit_packet(channel_byte));
        }
        Ok((pkt, apply))
    }

    /// Decodes a fan speed report: speeds from byte 24, little-endian, duties from 40.
    pub fn parse_fan_status_speed(pkt: &[u8]) -> (r: Option<[(u32, u8); 5]>)
        ensures
            r is Some <==> is_speed_report(pkt@),
            r is Some ==> forall|i: int|
                0 <= i < 5 ==> #[trigger] r->Some_0@[i] == speed_entry(pkt@, i),
    {
        if pkt.len() < 40 + FAN_CHANNELS {
            return None;
        }
        if pkt[0] != REPORT_FAN_STATUS || pkt[1] != 0x02 {
            return None;
        }
        let mut result: [(u32, u8); 5] = [(0u32, 0u8); 5];
        let mut i: usize = 0;
        while i < 5
            invariant
                i <= 5,
                pkt@.len() >= 45,
                result@.len() == 5,
                forall|k: int| 0 <= k < i ==> #[trigger] result@[k] == speed_entry(pkt@, k),
            decreases 5 - i,
        {
            let rpm: u32 = pkt[24 + 2 * i] as u32 + 256 * (pkt[25 + 2 * i] as u32);
            result[i] = (rpm, pkt[40 + i]);
            i = i + 1;
        }
        Some(result)
    }

    /// Decodes a fan configuration report: fan types from byte 16.
    pub fn parse_fan_config(pkt: &[u8]) -> (r: Option<[u8; 5]>)
        ensures
            r is Some <==> is_config_report(pkt@),
            r is Some ==> forall|i: int| 0 <= i < 5 ==> #[trigger] r->Some_0@[i] == pkt@[16 + i],
    {
        if pkt.len() < 16 + FAN_CHANNELS {
            return None;
        }
        if pkt[0] != REPORT_FAN_CONFIG || pkt[1] != 0x03 {
            return None;
        }
        Some([pkt[16], pkt[17], pkt[18], pkt[19], pkt[20]])
    }

    /// Takes over a report from the hub. A speed report sets speed, duty and type of every
    /// fan; a configuration report sets the types only; anything else is ignored.
    pub fn handle_packet(&mut self, pkt: &[u8])
        ensures
            final(self).fan_cache@ == cache_after(old(self).fan_cache@, pkt@, 5),
    {
        broadcast use vstd::std_specs::hash::group_hash_axioms;
        if let Some(updates) = Self::parse_fan_status_speed(pkt) {
            let mut i: usize = 0;
            while i < 5
                invariant
                    i <= 5,
                    is_speed_report(pkt@),
                    updates@.len() == 5,
                    forall|k: int| 0 <= k < 5 ==> #[trigger] updates@[k] == speed_entry(pkt@, k),
                    self.fan_cache@ == cache_after(old(self).fan_cache@, pkt@, i as nat),
                decreases 5 - i,
            {
                let (rpm, duty): (u32, u8) = updates[i];
                self.fan_cache.insert(
                    i as u8,
                    FanChannelState { rpm, duty, fan_type: pkt[16 + i] },
                );
                i = i + 1;
            }
        } else if let Some(types) = Self::parse_fan_config(pkt) {
            let mut i: usize = 0;
            while i < 5
                invariant
                    i <= 5,
                    !is_speed_report(pkt@),
                    is_config_report(pkt@),
                    types@.len() == 5,
                    forall|k: int| 0 <= k < 5 ==> #[trigger] types@[k] == pkt@[16 + k],
                    self.fan_cache@ == cache_after(old(self).fan_cache@, pkt@, i as nat),
                decreases 5 - i,
            {
                let known = self.fan_state(i as u8);
                self.fan_cache.insert(
                    i as u8,
                    FanChannelState { rpm: known.rpm, duty: known.duty, fan_type: types[i] },
                );
                i = i + 1;
            }
        } else {
            proof {
                lemma_other_reports_change_nothing(self.fan_cache@, pkt@, 5);
            }
        }
    }

    /// What is known about a channel.
    fn fan_state(&self, channel: u8) -> (r: FanChannelState)
        ensures
            r == fan_at(self.fan_cache@, channel),
    {
        broadcast use vstd::std_specs::hash::group_hash_axioms;
        match self.fan_cache.get(&channel) {
            Some(s) => *s,
            None => FanChannelState { rpm: 0, duty: 0, fan_type: 0 },
        }
    }

    /// The packet that starts fan detection.
    pub fn detect_fans() -> (r: [u8; 2])
        ensures
            r@ == seq![CMD_INIT, INIT_DETECT_FANS],
    {
        let r: [u8; 2] = [CMD_INIT, INIT_DETECT_FANS];
        proof {
            assert(r@ =~= seq![CMD_INIT, INIT_DETECT_FANS]);
        }
        r
    }

    /// The speed of a fan; zero while unknown.
    pub fn read_fan_rpm(&self, channel: u8) -> (r: u32)
        ensures
            r == fan_at(self.fan_cache@, channel).rpm,
    {
        self.fan_state(channel).rpm
    }

    /// The duty of a fan; zero while unknown.
    pub fn read_fan_duty(&self, channel: u8) -> (r: u8)
        ensures
            r == fan_at(self.fan_cache@, channel).duty,
    {
        self.fan_state(channel).duty
    }

    /// Whether a fan is connected, and so can be controlled.
    pub fn read_fan_controllable(&self, channel: u8) -> (r: bool)
        ensures
            r == (fan_at(self.fan_cache@, channel).fan_type != 0),
    {
        self.fan_state(channel).fan_type != 0
    }

    /// The packet that sets the duty of a fan.
    pub fn write_fan_duty(channel: u8, duty: u8) -> (r: Result<[u8; 11], HubError>)
        ensures
            channel >= FAN_CHANNELS ==> r == Err::<[u8; 11], HubError>(
                HubError::ChannelOutOfRange { channel },
            ),
            channel < FAN_CHANNELS ==> r is Ok && r->Ok_0@ == duty_packet(channel, duty),
    {
        if channel as usize >= FAN_CHANNELS {
            return Err(HubError::ChannelOutOfRange { channel });
        }
        let mut pkt: [u8; 11] = [0u8; 11];
        pkt[0] = CMD_SET_FAN_SPEED;
        pkt[1] = 0x01;
        pkt[2] = 1u8 << channel;
        pkt[3 + channel as usize] = duty;
        proof {
            assert(pkt@ =~= duty_packet(channel, duty));
        }
        Ok(pkt)
    }

    /// Remembers a duty whose packet went out, ahead of the next report.
    pub fn fan_duty_written(&mut self, channel: u8, duty: u8)
        ensures
            final(self).fan_cache@ == old(self).fan_cache@.insert(
                channel,
                FanChannelState { duty, ..fan_at(old(self).fan_cache@, channel) },
            ),
    {
        broadcast use vstd::std_specs::hash::group_hash_axioms;
        let known = self.fan_state(channel);
        self.fan_cache.insert(
            channel,
            FanChannelState { rpm: known.rpm, duty, fan_type: known.fan_type },
        );
    }

    /// The firmware control byte for an update interval.
    pub fn interval_control_byte(interval_ms: u32) -> (r: u8)
        ensures
            r == interval_byte(interval_ms),
    {
        if interval_ms <= 250 {
            0
        } else {
            let over: u32 = if interval_ms > 488 {
                interval_ms - 488
            } else {
                0
            };
            if over / 256 + 1 < 255 {
                (over / 256 + 1) as u8
            } else {
                255
            }
        }
    }

    /// The packet that makes the hub push its status every `interval_ms`.
    pub fn start_polling(interval_ms: u32) -> (r: [u8; 8])
        ensures
            r@ == seq![
                CMD_INIT,
                INIT_SET_UPDATE_INTERVAL,
                0x01,
                0xE8,
                interval_byte(interval_ms),
                0x01,
                0xE8,
                interval_byte(interval_ms),
            ],
    {
        let control: u8 = Self::interval_control_byte(interval_ms);
        let r: [u8; 8] = [
            CMD_INIT,
            INIT_SET_UPDATE_INTERVAL,
            0x01,
            0xE8,
            control,
            0x01,
            0xE8,
            control,
        ];
        proof {
            assert(r@ =~= seq![
                CMD_INIT,
                INIT_SET_UPDATE_INTERVAL,
                0x01,
                0xE8,
                control,
                0x01,
                0xE8,
                control,
            ]);
        }
        r
    }
}

/// A report of another kind leaves the cache as it is.
proof fn lemma_other_reports_change_nothing(cache: Map<u8, FanChannelState>, pkt: Seq<u8>, n: nat)
    requires
        !is_speed_report(pkt),
        !is_config_report(pkt),
    ensures
        cache_after(cache, pkt, n) == cache,
    decreases n,
{
    if n > 0 {
        lemma_other_reports_change_nothing(cache, pkt, (n - 1) as nat);
    }
}

/// After a report, every channel shows what the report says about it: speed reports
/// bring speed, duty and type, configuration reports bring the type and leave the rest.
pub proof fn reports_reach_every_channel(cache: Map<u8, FanChannelState>, pkt: Seq<u8>, ch: u8)
    requires
        ch < FAN_CHANNELS,
    ensures
        is_speed_report(pkt) ==> fan_at(cache_after(cache, pkt, 5), ch) == (FanChannelState {
            rpm: speed_entry(pkt, ch as int).0,
            duty: speed_entry(pkt, ch as int).1,
            fan_type: pkt[16 + ch],
        }),
        is_config_report(pkt) ==> fan_at(cache_after(cache, pkt, 5), ch) == (FanChannelState {
            fan_type: pkt[16 + ch],
            ..fan_at(cache, ch)
        }),
{
    reveal_with_fuel(cache_after, 6);
}

/// A longer interval never gets a smaller control byte.
pub proof fn interval_byte_is_monotone(a: u32, b: u32)
    requires
        a <= b,
    ensures
        interval_byte(a) <= interval_byte(b),
{
}

/// A frame goes out as `26 04`, the bit of its channel and a zero, and then green, red
/// and blue of each colour; the commit that follows names the same bit. Channels from
/// eight on are refused.
pub proof fn frames_name_their_channel(
    channel: u8,
    colors: &[RgbColor],
    r: Result<(Vec<u8>, [u8; 64]), HubError>,
    i: int,
)
    requires
        call_ensures(NzxtControlHubProtocol::write_rgb_frame, (channel, colors), r),
        0 <= i < colors@.len(),
    ensures
        r is Ok <==> channel < 8,
        r matches Err(HubError::ChannelOutOfRange { channel: c }) ==> c == channel,
        r matches Ok(p) ==> {
            &&& p.0@.len() == 4 + 3 * colors@.len()
            &&& p.0@[0] == 0x26 && p.0@[1] == 0x04 && p.0@[3] == 0x00
            &&& p.0@[2] == p.1@[2]
            &&& p.0@[4 + 3 * i] == colors@[i].g
            &&& p.0@[5 + 3 * i] == colors@[i].r
            &&& p.0@[6 + 3 * i] == colors@[i].b
        },
{
    lemma_grb(colors@, i);
}

/// Each channel has a bit of its own: 1, 2, 4 and so on up to 128.
pub proof fn channels_have_their_bits(
    channel: u8,
    colors: &[RgbColor],
    r: Result<(Vec<u8>, [u8; 64]), HubError>,
)
    requires
        call_ensures(NzxtControlHubProtocol::write_rgb_frame, (channel, colors), r),
        channel < 8,
    ensures
        r is Ok,
        ({
            let bit = r->Ok_0.0@[2];
            &&& channel == 0 ==> bit == 1
            &&& channel == 1 ==> bit == 2
            &&& channel == 2 ==> bit == 4
            &&& channel == 3 ==> bit == 8
            &&& channel == 4 ==> bit == 16
            &&& channel == 5 ==> bit == 32
            &&& channel == 6 ==> bit == 64
            &&& channel == 7 ==> bit == 128
        }),
{
    lemma_channel_bits();
}

/// The first eight powers of two.
proof fn lemma_channel_bits()
    ensures
        1u8 << 0u8 == 1,
        1u8 << 1u8 == 2,
        1u8 << 2u8 == 4,
        1u8 << 3u8 == 8,
        1u8 << 4u8 == 16,
        1u8 << 5u8 == 32,
        1u8 << 6u8 == 64,
        1u8 << 7u8 == 128,
{
    assert(1u8 << 0u8 == 1 && 1u8 << 1u8 == 2 && 1u8 << 2u8 == 4 && 1u8 << 3u8 == 8 && 1u8 << 4u8
        == 16 && 1u8 << 5u8 == 32 && 1u8 << 6u8 == 64 && 1u8 << 7u8 == 128) by (bit_vector);
}

/// A commit is `26 06`, the bit of the channel and thirteen fixed bytes, then zeros.
pub proof fn commits_are_fixed(
    channel: u8,
    colors: &[RgbColor],
    r: Result<(Vec<u8>, [u8; 64]), HubError>,
    i: int,
)
    requires
        call_ensures(NzxtControlHubProtocol::write_rgb_frame, (channel, colors), r),
        channel < 8,
        16 <= i < 64,
    ensures
        r is Ok,
        ({
            let c = r->Ok_0.1@;
            &&& c[0] == 0x26 && c[1] == 0x06 && c[3] == 0x00 && c[4] == 0x01 && c[5] == 0x00
            &&& c[6] == 0x00 && c[7] == 0x18 && c[8] == 0x00 && c[9] == 0x00 && c[10] == 0x80
            &&& c[11] == 0x00 && c[12] == 0x32 && c[13] == 0x00 && c[14] == 0x00 && c[15] == 0x01
            &&& c[i] == 0
        }),
{
}

/// A speed report begins with `67 02` and has 45 bytes. Fan `i` has its speed in two
/// bytes from 24 on, low byte first, and its duty in a byte from 40 on.
pub proof fn speed_reports_are_read(pkt: &[u8], r: Option<[(u32, u8); 5]>, i: int)
    requires
        call_ensures(NzxtControlHubProtocol::parse_fan_status_speed, (pkt,), r),
        0 <= i < 5,
    ensures
        r is Some <==> pkt@.len() >= 45 && pkt@[0] == 0x67 && pkt@[1] == 0x02,
        r matches Some(fans) ==> {
            &&& fans@[i].0 % 256 == pkt@[24 + 2 * i]
            &&& fans@[i].0 / 256 == pkt@[25 + 2 * i]
            &&& fans@[i].1 == pkt@[40 + i]
        },
{
    if r is Some {
        assert(r->Some_0@[i] == speed_entry(pkt@, i));
    }
}

/// A configuration report begins with `61 03` and has 21 bytes; fan `i` has its type in
/// a byte from 16 on.
pub proof fn configurations_are_read(pkt: &[u8], r: Option<[u8; 5]>, i: int)
    requires
        call_ensures(NzxtControlHubProtocol::parse_fan_config, (pkt,), r),
        0 <= i < 5,
    ensures
        r is Some <==> pkt@.len() >= 21 && pkt@[0] == 0x61 && pkt@[1] == 0x03,
        r matches Some(types) ==> types@[i] == pkt@[16 + i],
{
    if r is Some {
        assert(r->Some_0@[i] == pkt@[16 + i]);
    }
}

/// After a report, what is read back of a channel is what the report said of it: of a
/// speed report all three values, of a configuration report the type, with speed and
/// duty as they were. Other reports, and channels from five on, change nothing.
pub proof fn reports_are_shown(
    d: &mut NzxtControlHubProtocol,
    pkt: &[u8],
    ch: u8,
    rpm: (u32, u32),
    duty: (u8, u8),
    on: (bool, bool),
)
    requires
        call_ensures(NzxtControlHubProtocol::handle_packet, (d, pkt), ()),
        call_ensures(NzxtControlHubProtocol::read_fan_rpm, (&*old(d), ch), rpm.0),
        call_ensures(NzxtControlHubProtocol::read_fan_rpm, (&*final(d), ch), rpm.1),
        call_ensures(NzxtControlHubProtocol::read_fan_duty, (&*old(d), ch), duty.0),
        call_ensures(NzxtControlHubProtocol::read_fan_duty, (&*final(d), ch), duty.1),
        call_ensures(NzxtControlHubProtocol::read_fan_controllable, (&*old(d), ch), on.0),
        call_ensures(NzxtControlHubProtocol::read_fan_controllable, (&*final(d), ch), on.1),
    ensures
        pkt@.len() >= 45 && pkt@[0] == 0x67 && pkt@[1] == 0x02 && ch < 5 ==> {
            &&& rpm.1 == pkt@[24 + 2 * ch] + 256 * pkt@[25 + 2 * ch]
            &&& duty.1 == pkt@[40 + ch]
            &&& on.1 <==> pkt@[16 + ch] != 0
        },
        pkt@.len() >= 21 && pkt@[0] == 0x61 && pkt@[1] == 0x03 && ch < 5 ==> {
            &&& rpm.1 == rpm.0
            &&& duty.1 == duty.0
            &&& on.1 <==> pkt@[16 + ch] != 0
        },
        ch >= 5 || pkt@.len() < 21 || (pkt@[0] == 0x67 && pkt@.len() < 45) || !(pkt@[0] == 0x67
            && pkt@[1] == 0x02 || pkt@[0] == 0x61 && pkt@[1] == 0x03) ==> rpm.1 == rpm.0 && duty.1
            == duty.0 && on.1 == on.0,
{
    reveal_with_fuel(cache_after, 6);
    if ch < 5 {
        reports_reach_every_channel(old(d).fan_cache@, pkt@, ch);
    }
}

/// A new hub has every fan at rest and none to control.
pub proof fn new_hubs_know_no_fan(
    d: NzxtControlHubProtocol,
    ch: u8,
    rpm: u32,
    duty: u8,
    on: bool,
)
    requires
        call_ensures(NzxtControlHubProtocol::new, (), d),
        call_ensures(NzxtControlHubProtocol::read_fan_rpm, (&d, ch), rpm),
        call_ensures(NzxtControlHubProtocol::read_fan_duty, (&d, ch), duty),
        call_ensures(NzxtControlHubProtocol::read_fan_controllable, (&d, ch), on),
    ensures
        rpm == 0,
        duty == 0,
        !on,
{
}

/// A duty packet is `62 01`, the bit of the channel, and five bytes of which that of the
/// channel is the duty as given; all else is zero. The last three bytes are always zero.
pub proof fn duties_go_to_their_channel(
    channel: u8,
    duty: u8,
    r: Result<[u8; 11], HubError>,
    i: int,
)
    requires
        call_ensures(NzxtControlHubProtocol::write_fan_duty, (channel, duty), r),
        3 <= i < 11,
    ensures
        r is Ok <==> channel < 5,
        r matches Err(HubError::ChannelOutOfRange { channel: c }) ==> c == channel,
        r matches Ok(p) ==> {
            &&& p@[0] == 0x62 && p@[1] == 0x01
            &&& channel == 0 ==> p@[2] == 1
            &&& channel == 1 ==> p@[2] == 2
            &&& channel == 2 ==> p@[2] == 4
            &&& channel == 3 ==> p@[2] == 8
            &&& channel == 4 ==> p@[2] == 16
            &&& p@[3 + channel] == duty
            &&& i != 3 + channel ==> p@[i] == 0
        },
{
    lemma_channel_bits();
}

/// A duty that went out is what is read back, until the next report; speed and type of
/// the channel, and everything of the other channels, stay.
pub proof fn written_duties_are_shown(
    d: &mut NzxtControlHubProtocol,
    channel: u8,
    duty: u8,
    ch: u8,
    rpm: (u32, u32),
    shown: (u8, u8),
    on: (bool, bool),
)
    requires
        call_ensures(NzxtControlHubProtocol::fan_duty_written, (d, channel, duty), ()),
        call_ensures(NzxtControlHubProtocol::read_fan_rpm, (&*old(d), ch), rpm.0),
        call_ensures(NzxtControlHubProtocol::read_fan_rpm, (&*final(d), ch), rpm.1),
        call_ensures(NzxtControlHubProtocol::read_fan_duty, (&*old(d), ch), shown.0),
        call_ensures(NzxtControlHubProtocol::read_fan_duty, (&*final(d), ch), shown.1),
        call_ensures(NzxtControlHubProtocol::read_fan_controllable, (&*old(d), ch), on.0),
        call_ensures(NzxtControlHubProtocol::read_fan_controllable, (&*final(d), ch), on.1),
    ensures
        rpm.1 == rpm.0,
        on.1 == on.0,
        ch == channel ==> shown.1 == duty,
        ch != channel ==> shown.1 == shown.0,
{
}

/// Fan detection starts with `60 03`.
pub proof fn detection_has_its_command(r: [u8; 2])
    requires
        call_ensures(NzxtControlHubProtocol::detect_fans, (), r),
    ensures
        r@[0] == 0x60 && r@[1] == 0x03,
{
}

/// A control byte `b` stands for 250 ms where it is zero and for `488 + 256 * (b - 1)` ms
/// otherwise. The one chosen is the largest whose interval is no longer than asked,
/// except that more than 250 ms never gets zero and that 255 is the most there is.
pub proof fn intervals_are_rounded_down(interval_ms: u32, b: u8)
    requires
        call_ensures(NzxtControlHubProtocol::interval_control_byte, (interval_ms,), b),
    ensures
        b == 0 <==> interval_ms <= 250,
        b >= 2 ==> 488 + 256 * (b - 1) <= interval_ms,
        1 <= b < 255 ==> interval_ms < 488 + 256 * b,
{
}

/// Polling starts with `60 02` and twice the same three bytes: `01 E8` and the control
/// byte of the interval.
pub proof fn polling_names_its_interval(interval_ms: u32, b: u8, r: [u8; 8])
    requires
        call_ensures(NzxtControlHubProtocol::interval_control_byte, (interval_ms,), b),
        call_ensures(NzxtControlHubProtocol::start_polling, (interval_ms,), r),
    ensures
        r@[0] == 0x60 && r@[1] == 0x02,
        r@[2] == 0x01 && r@[3] == 0xE8 && r@[4] == b,
        r@[5] == 0x01 && r@[6] == 0xE8 && r@[7] == b,
{
}

} // verus!
