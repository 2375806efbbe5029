//! NZXT Kraken coolers: status reports, pump and fan duties, and the lighting packets of
//! the two wire families. The LCD is in [`lcd`].

pub mod lcd;

use crate::nzxt::protocols::nzxt::{grb_bytes, grb_channel, lemma_grb, push_grb};
use crate::rgb::RgbColor;
use vstd::prelude::*;
use vstd::slice::*;

verus! {

/// First packet of the initialisation.
pub const INIT_SET: [u8; 5] = [0x70, 0x02, 0x01, 0xB8, 0x01];

/// Second packet of the initialisation.
pub const INIT_FW_PUSH: [u8; 2] = [0x70, 0x01];

/// Third packet of the initialisation.
pub const INIT_STATUS_PUSH: [u8; 2] = [0x10, 0x01];

/// Report id of a status push.
pub const STATUS_REPORT: u8 = 0x75;

/// Header of a pump duty curve.
pub const PUMP_DUTY: [u8; 4] = [0x72, 0x01, 0x00, 0x00];

/// Header of a fan duty curve.
pub const FAN_DUTY: [u8; 4] = [0x72, 0x02, 0x01, 0x01];

/// X-series lighting command.
pub const X3_LIGHTING: u8 = 0x22;

/// X-series commit.
pub const X3_COMMIT: u8 = 0xA0;

/// LEDs of the Z/Elite ring.
pub const RING_LED_COUNT: usize = 24;

/// Length of the Z/Elite ring buffer: 40 slots of three bytes.
pub const RING_BUF_LEN: usize = 120;

/// Channel byte of the ring.
pub const RING_CHANNEL_BYTE: u8 = 0x01;

/// Channel byte of the accessory header.
pub const EXT_CHANNEL_BYTE: u8 = 0x02;

/// Points of a duty curve: one per degree from 20 to 59.
pub const PROFILE_LEN: usize = 40;

/// The pump never runs below this duty.
pub const PUMP_DUTY_MIN: u8 = 20;

/// Highest duty.
pub const PUMP_DUTY_MAX: u8 = 100;

/// Length of a report.
pub const READ_SIZE: usize = 64;

/// Wire family of a Kraken model.
#[derive(Debug, Clone, Copy, PartialEq, Eq, Structural)]
pub enum KrakenWire {
    /// X-series: ring and accessory header are written independently.
    X3,
    /// Z-series and Elite: ring and accessory header are sent together.
    ZElite,
}

/// What a Kraken reports about itself. The liquid temperature is in tenths of a degree.
#[derive(Debug, Clone, Copy, PartialEq, Eq, Structural)]
pub struct KrakenStatus {
    pub liquid_temp_tenths: u32,
    pub pump_rpm: u32,
    pub pump_duty: u8,
    pub fan_rpm: u32,
    pub fan_duty: u8,
}

/// What has to be remembered about the lighting: the Z/Elite family sends both channels
/// every time.
#[derive(Debug)]
pub enum KrakenRgbCache {
    X3,
    ZElite { ring_grb: [u8; 120], ext_grb: Vec<u8> },
}

impl KrakenRgbCache {
    /// An empty cache for a wire family.
    pub fn for_wire(wire: KrakenWire) -> (r: Self)
        ensures
            r is X3 <==> wire is X3,
            r matches KrakenRgbCache::ZElite { ring_grb, ext_grb } ==> ring_grb@ == Seq::new(
                RING_BUF_LEN as nat,
                |i: int| 0u8,
            ) && ext_grb@.len() == 0,
    {
        match wire {
            KrakenWire::X3 => KrakenRgbCache::X3,
            KrakenWire::ZElite => {
                let ring_grb: [u8; 120] = [0u8; 120];
                proof {
                    assert(ring_grb@ =~= Seq::new(RING_BUF_LEN as nat, |i: int| 0u8));
                }
                KrakenRgbCache::ZElite { ring_grb, ext_grb: Vec::new() }
            },
        }
    }
}

/// Whether a report is a usable status push; `FF FF` stands for no temperature.
pub open spec fn is_status(pkt: Seq<u8>) -> bool {
    &&& pkt.len() >= 26
    &&& pkt[0] == STATUS_REPORT
    &&& pkt[1] == 0x01 || pkt[1] == 0x02
    &&& !(pkt[15] == 0xFF && pkt[16] == 0xFF)
}

/// What a status push says. Fractions above nine count as nine.
pub open spec fn status_of(pkt: Seq<u8>) -> KrakenStatus {
    KrakenStatus {
        liquid_temp_tenths: (10 * pkt[15] + if pkt[16] < 9 {
            pkt[16] as int
        } else {
            9
        }) as u32,
        pump_rpm: (pkt[17] + 256 * pkt[18]) as u32,
        pump_duty: pkt[19],
        fan_rpm: (pkt[23] + 256 * pkt[24]) as u32,
        fan_duty: pkt[25],
    }
}

/// A duty limited to `min..=100`.
pub open spec fn limited_duty(duty: u8, min: u8) -> u8 {
    if duty < min {
        min
    } else if duty > 100 {
        100
    } else {
        duty
    }
}

/// A flat duty curve.
pub open spec fn flat_curve(duty: u8, min: u8) -> Seq<u8> {
    Seq::new(PROFILE_LEN as nat, |i: int| limited_duty(duty, min))
}

/// The ring buffer: GRB triples for the first 24 colours, zero beyond.
pub open spec fn ring_bytes(colors: Seq<RgbColor>) -> Seq<u8> {
    Seq::new(
        RING_BUF_LEN as nat,
        |i: int|
            if i / 3 < RING_LED_COUNT && i / 3 < colors.len() {
                grb_channel(colors[i / 3], i % 3)
            } else {
                0
            },
    )
}

/// The part of `grb` that data packet `n` of an X-series channel carries.
pub open spec fn x3_chunk(grb: Seq<u8>, n: int) -> Seq<u8> {
    let from = 60 * n;
    if from >= grb.len() {
        Seq::empty()
    } else if from + 60 <= grb.len() {
        grb.subrange(from, from + 60)
    } else {
        grb.subrange(from, grb.len() as int)
    }
}

/// Data packet `n` of an X-series channel, filled up with zeros.
pub open spec fn x3_packet(ch: u8, grb: Seq<u8>, n: int) -> Seq<u8> {
    let head = seq![X3_LIGHTING, (0x10 + n) as u8, ch, 0x00] + x3_chunk(grb, n);
    head + Seq::new((64 - head.len()) as nat, |i: int| 0u8)
}

/// The commit packet of an X-series channel.
pub open spec fn x3_commit(ch: u8) -> Seq<u8> {
    seq![
        X3_LIGHTING,
        X3_COMMIT,
        ch,
        0x00,
        0x01,
        0x00,
        0x00,
        0x28,
        0x00,
        0x00,
        0x80,
        0x00,
        0x32,
        0x00,
        0x00,
        0x01,
    ]
}

/// Whether `pkts` show `colors` on an X-series channel: two data packets and a commit.
pub open spec fn is_x3_frame(pkts: Seq<Vec<u8>>, ch: u8, colors: Seq<RgbColor>) -> bool {
    &&& pkts.len() == 3
    &&& pkts[0]@ == x3_packet(ch, grb_bytes(colors), 0)
    &&& pkts[1]@ == x3_packet(ch, grb_bytes(colors), 1)
    &&& pkts[2]@ == x3_commit(ch)
}

/// A Z/Elite lighting packet.
pub open spec fn ze_packet(ch: u8, grb: Seq<u8>) -> Seq<u8> {
    seq![0x26u8, 0x14, ch, ch] + grb
}

/// Whether `pkts` send both Z/Elite channels; the accessory header only where it has
/// colours.
pub open spec fn is_ze_frame(pkts: Seq<Vec<u8>>, ring: Seq<u8>, ext: Seq<u8>) -> bool {
    &&& pkts.len() == if ext.len() > 0 {
        2nat
    } else {
        1nat
    }
    &&& pkts[0]@ == ze_packet(RING_CHANNEL_BYTE, ring)
    &&& ext.len() > 0 ==> pkts[1]@ == ze_packet(EXT_CHANNEL_BYTE, ext)
}

/// The logo packet.
pub open spec fn logo_packet(color: RgbColor) -> Seq<u8> {
    seq![0x2Au8, 0x04, 0x04, 0x04, 0x00, 0x32, 0x00, color.g, color.r, color.b] + Seq::new(
        46,
        |i: int| 0u8,
    ) + seq![0x01u8, 0x00, 0x01, 0x03] + Seq::new(4, |i: int| 0u8)
}

/// A Kraken: its wire family, what was last reported, the lighting cache and which image
/// bucket is shown.
#[derive(Debug)]
pub struct NzxtKrakenProtocol {
    pub wire: KrakenWire,
    pub rgb_cache: KrakenRgbCache,
    pub status: KrakenStatus,
    pub active_bucket: Option<u8>,
    pub polling_paused: bool,
}

impl NzxtKrakenProtocol {
    /// The cache belongs to the wire family.
    pub open spec fn wf(self) -> bool {
        self.rgb_cache is X3 <==> self.wire is X3
    }

    /// A Kraken about which nothing is known.
    pub fn new(wire: KrakenWire) -> (r: Self)
        ensures
            r.wf(),
            r.wire == wire,
            r.status == (KrakenStatus {
                liquid_temp_tenths: 0,
                pump_rpm: 0,
                pump_duty: 0,
                fan_rpm: 0,
                fan_duty: 0,
            }),
            r.active_bucket is None,
            !r.polling_paused,
            r.rgb_cache matches KrakenRgbCache::ZElite { ring_grb, ext_grb } ==> ring_grb@
                == Seq::new(RING_BUF_LEN as nat, |i: int| 0u8) && ext_grb@.len() == 0,
    {
        NzxtKrakenProtocol {
            wire,
            rgb_cache: KrakenRgbCache::for_wire(wire),
            status: KrakenStatus {
                liquid_temp_tenths: 0,
                pump_rpm: 0,
                pump_duty: 0,
                fan_rpm: 0,
                fan_duty: 0,
            },
            active_bucket: None,
            polling_paused: false,
        }
    }

    /// The packets of the initialisation, in order; the firmware query follows them.
    pub fn initialize() -> (r: [Vec<u8>; 3])
        ensures
            r@[0]@ == INIT_SET@,
            r@[1]@ == INIT_FW_PUSH@,
            r@[2]@ == INIT_STATUS_PUSH@,
    {
        [slice_to_vec(&INIT_SET), slice_to_vec(&INIT_FW_PUSH), slice_to_vec(&INIT_STATUS_PUSH)]
    }

    /// Decodes a status push. Anything else, and a push without a temperature, is refused.
    pub fn parse_status(pkt: &[u8]) -> (r: Option<KrakenStatus>)
        ensures
            r == if is_status(pkt@) {
                Some(status_of(pkt@))
            } else {
                None
            },
    {
        if pkt.len() < 26 {
            return None;
        }
        if pkt[0] != STATUS_REPORT || (pkt[1] != 0x01 && pkt[1] != 0x02) {
            return None;
        }
        if pkt[15] == 0xFF && pkt[16] == 0xFF {
            return None;
        }
        let frac: u32 = if pkt[16] < 9 {
            pkt[16] as u32
        } else {
            9
        };
        Some(
            KrakenStatus {
                liquid_temp_tenths: 10 * (pkt[15] as u32) + frac,
                pump_rpm: pkt[17] as u32 + 256 * (pkt[18] as u32),
                pump_duty: pkt[19],
                fan_rpm: pkt[23] as u32 + 256 * (pkt[24] as u32),
                fan_duty: pkt[25],
            },
        )
    }

    /// Takes over a report that the polling loop read. Nothing is taken over while an
    /// LCD transfer has polling paused.
    pub fn handle_packet(&mut self, pkt: &[u8])
        ensures
            *final(self) == (NzxtKrakenProtocol {
                status: if !old(self).polling_paused && is_status(pkt@) {
                    status_of(pkt@)
                } else {
                    old(self).status
                },
                ..*old(self)
            }),
    {
        if !self.polling_paused {
            if let Some(status) = Self::parse_status(pkt) {
                self.status = status;
            }
        }
    }

    /// A flat duty curve within `min_duty..=100`.
    pub fn build_fixed_profile(duty: u8, min_duty: u8) -> (r: [u8; 40])
        requires
            min_duty <= 100,
        ensures
            r@ == flat_curve(duty, min_duty),
    {
        let clamped: u8 = if duty < min_duty {
            min_duty
        } else if duty > 100 {
            100
        } else {
            duty
        };
        let r: [u8; 40] = [clamped; 40];
        proof {
            assert(r@ =~= flat_curve(duty, min_duty));
        }
        r
    }

    /// A header and a duty curve.
    fn curve_packet(header: [u8; 4], profile: [u8; 40]) -> (r: Vec<u8>)
        ensures
            r@ == header@ + profile@,
    {
        let mut pkt = slice_to_vec(&header);
        let mut body = slice_to_vec(&profile);
        pkt.append(&mut body);
        pkt
    }

    /// The packet that sets the pump duty; the pump is never sent below its minimum.
    pub fn write_pump_duty(duty: u8) -> (r: Vec<u8>)
        ensures
            r@ == PUMP_DUTY@ + flat_curve(duty, PUMP_DUTY_MIN),
    {
        Self::curve_packet(PUMP_DUTY, Self::build_fixed_profile(duty, PUMP_DUTY_MIN))
    }

    /// Remembers a pump duty whose packet went out.
    pub fn pump_duty_written(&mut self, duty: u8)
        ensures
            *final(self) == (NzxtKrakenProtocol {
                status: KrakenStatus {
                    pump_duty: limited_duty(duty, PUMP_DUTY_MIN),
                    ..old(self).status
                },
                ..*old(self)
            }),
    {
        self.status.pump_duty = if duty < PUMP_DUTY_MIN {
            PUMP_DUTY_MIN
        } else if duty > PUMP_DUTY_MAX {
            PUMP_DUTY_MAX
        } else {
            duty
        };
    }

    /// The packet that sets the fan duty.
    pub fn write_fan_duty(duty: u8) -> (r: Vec<u8>)
        ensures
            r@ == FAN_DUTY@ + flat_curve(duty, 0),
    {
        Self::curve_packet(FAN_DUTY, Self::build_fixed_profile(duty, 0))
    }

    /// Remembers a fan duty whose packet went out.
    pub fn fan_duty_written(&mut self, duty: u8)
        ensures
            *final(self) == (NzxtKrakenProtocol {
                status: KrakenStatus { fan_duty: limited_duty(duty, 0), ..old(self).status },
                ..*old(self)
            }),
    {
        self.status.fan_duty = if duty > 100 {
            100
        } else {
            duty
        };
    }

    /// The ring buffer: 24 LEDs clockwise from twelve o'clock in 40 slots.
    pub fn build_ring_grb(colors: &[RgbColor]) -> (r: [u8; 120])
        ensures
            r@ == ring_bytes(colors@),
    {
        let mut buf: [u8; 120] = [0u8; 120];
        let mut i: usize = 0;
        while i < RING_LED_COUNT && i < colors.len()
            invariant
                i <= RING_LED_COUNT,
                i <= colors@.len(),
                buf@.len() == 120,
                forall|k: int| 0 <= k < 3 * i ==> buf@[k] == ring_bytes(colors@)[k],
                forall|k: int| 3 * i <= k < 120 ==> buf@[k] == 0,
            decreases RING_LED_COUNT - i,
        {
            let c: RgbColor = colors[i];
            buf[3 * i] = c.g;
            buf[3 * i + 1] = c.r;
            buf[3 * i + 2] = c.b;
            i = i + 1;
        }
        proof {
            assert(buf@ =~= ring_bytes(colors@));
        }
        buf
    }

    /// The packets that show `colors` on the ring. The Z/Elite ring goes into the cache
    /// and is sent together with the accessory header.
    pub fn write_ring_frame(&mut self, colors: &[RgbColor]) -> (r: Vec<Vec<u8>>)
        ensures
            final(self).wire == old(self).wire,
            final(self).status == old(self).status,
            final(self).active_bucket == old(self).active_bucket,
            final(self).polling_paused == old(self).polling_paused,
            match old(self).rgb_cache {
                KrakenRgbCache::X3 => final(self).rgb_cache is X3 && is_x3_frame(
                    r@,
                    0x02,
                    colors@,
                ),
                KrakenRgbCache::ZElite { ring_grb, ext_grb } => {
                    &&& final(self).rgb_cache matches KrakenRgbCache::ZElite {
                        ring_grb: ring,
                        ext_grb: ext,
                    } && ring@ == ring_bytes(colors@) && ext@ == ext_grb@
                    &&& is_ze_frame(r@, ring_bytes(colors@), ext_grb@)
                },
            },
    {
        match &mut self.rgb_cache {
            KrakenRgbCache::X3 => Self::write_x3_channel(0x02, colors),
            KrakenRgbCache::ZElite { ring_grb, ext_grb } => {
                let ring = Self::build_ring_grb(colors);
                *ring_grb = ring;
                Self::send_ze_channels(&ring, ext_grb)
            },
        }
    }

    /// The packets that show `colors` on the accessory header.
    pub fn write_ext_frame(&mut self, colors: &[RgbColor]) -> (r: Vec<Vec<u8>>)
        ensures
            final(self).wire == old(self).wire,
            final(self).status == old(self).status,
            final(self).active_bucket == old(self).active_bucket,
            final(self).polling_paused == old(self).polling_paused,
            match old(self).rgb_cache {
                KrakenRgbCache::X3 => final(self).rgb_cache is X3 && is_x3_frame(
                    r@,
                    0x01,
                    colors@,
                ),
                KrakenRgbCache::ZElite { ring_grb, ext_grb } => {
                    &&& final(self).rgb_cache matches KrakenRgbCache::ZElite {
                        ring_grb: ring,
                        ext_grb: ext,
                    } && ring@ == ring_grb@ && ext@ == grb_bytes(colors@)
                    &&& is_ze_frame(r@, ring_grb@, grb_bytes(colors@))
                },
            },
    {
        match &mut self.rgb_cache {
            KrakenRgbCache::X3 => Self::write_x3_channel(0x01, colors),
            KrakenRgbCache::ZElite { ring_grb, ext_grb } => {
                let mut buf: Vec<u8> = Vec::new();
                push_grb(&mut buf, colors);
                proof {
                    assert(Seq::<u8>::empty() + grb_bytes(colors@) =~= grb_bytes(colors@));
                }
                let pkts = Self::send_ze_channels(ring_grb, &buf);
                *ext_grb = buf;
                pkts
            },
        }
    }

    /// The packet that sets the logo LED, which only the X-series has.
    pub fn write_logo(&self, color: RgbColor) -> (r: [u8; 64])
        requires
            self.wire is X3,
        ensures
            r@ == logo_packet(color),
    {
        let mut pkt: [u8; 64] = [0u8; 64];
        pkt[0] = 0x2A;
        pkt[1] = 0x04;
        pkt[2] = 0x04;
        pkt[3] = 0x04;
        pkt[5] = 0x32;
        pkt[7] = color.g;
        pkt[8] = color.r;
        pkt[9] = color.b;
        pkt[56] = 0x01;
        pkt[58] = 0x01;
        pkt[59] = 0x03;
        proof {
            assert(pkt@ =~= logo_packet(color));
        }
        pkt
    }

    /// Data packet `n` of an X-series channel.
    fn x3_data(ch: u8, grb: &Vec<u8>, n: u8) -> (r: Vec<u8>)
        requires
            n < 2,
        ensures
            r@ == x3_packet(ch, grb@, n as int),
    {
        let from: usize = 60 * (n as usize);
        let mut pkt: Vec<u8> = vec![X3_LIGHTING, 0x10 + n, ch, 0x00];
        let chunk: &[u8] = if from < grb.len() {
            let to: usize = if from + 60 <= grb.len() {
                from + 60
            } else {
                grb.len()
            };
            slice_subrange(grb.as_slice(), from, to)
        } else {
            slice_subrange(grb.as_slice(), 0, 0)
        };
        pkt.extend_from_slice(chunk);
        proof {
            assert(pkt@ =~= seq![X3_LIGHTING, (0x10 + n) as u8, ch, 0x00] + x3_chunk(grb@, n as int));
        }
        let ghost head = pkt@;
        pkt.resize(64, 0);
        proof {
            assert(pkt@ =~= x3_packet(ch, grb@, n as int));
        }
        pkt
    }

    /// The packets that show `colors` on an X-series channel.
    fn write_x3_channel(ch: u8, colors: &[RgbColor]) -> (r: Vec<Vec<u8>>)
        ensures
            is_x3_frame(r@, ch, colors@),
    {
        let mut grb: Vec<u8> = Vec::new();
        push_grb(&mut grb, colors);
        proof {
            assert(Seq::<u8>::empty() + grb_bytes(colors@) =~= grb_bytes(colors@));
        }
        let first = Self::x3_data(ch, &grb, 0);
        let second = Self::x3_data(ch, &grb, 1);
        let commit: Vec<u8> = vec![
            X3_LIGHTING,
            X3_COMMIT,
            ch,
            0x00,
            0x01,
            0x00,
            0x00,
            0x28,
            0x00,
            0x00,
            0x80,
            0x00,
            0x32,
            0x00,
            0x00,
            0x01,
        ];
        proof {
            assert(commit@ =~= x3_commit(ch));
        }
        vec![first, second, commit]
    }

    /// The packets that send both Z/Elite channels.
    fn send_ze_channels(ring: &[u8; 120], ext: &Vec<u8>) -> (r: Vec<Vec<u8>>)
        ensures
            is_ze_frame(r@, ring@, ext@),
    {
        let mut out: Vec<Vec<u8>> = Vec::new();
        let mut ring_pkt: Vec<u8> = vec![0x26u8, 0x14, RING_CHANNEL_BYTE, RING_CHANNEL_BYTE];
        ring_pkt.extend_from_slice(ring);
        proof {
            assert(ring_pkt@ =~= ze_packet(RING_CHANNEL_BYTE, ring@));
        }
        out.push(ring_pkt);
        if ext.len() > 0 {
            let mut ext_pkt: Vec<u8> = vec![0x26u8, 0x14, EXT_CHANNEL_BYTE, EXT_CHANNEL_BYTE];
            ext_pkt.extend_from_slice(ext.as_slice());
            proof {
                assert(ext_pkt@ =~= ze_packet(EXT_CHANNEL_BYTE, ext@));
            }
            out.push(ext_pkt);
        }
        out
    }
}

/// The pump is never asked to run below its minimum, nor any fan above full duty.
pub proof fn duty_curves_stay_in_bounds(duty: u8, i: int)
    requires
        0 <= i < PROFILE_LEN,
    ensures
        PUMP_DUTY_MIN <= flat_curve(duty, PUMP_DUTY_MIN)[i] <= 100,
        flat_curve(duty, 0)[i] <= 100,
{
}

/// An X-series frame of up to 40 LEDs is carried whole: the payloads of its two data
/// packets are the colours in order, and both packets are 64 bytes.
pub proof fn x3_frames_carry_every_led(ch: u8, colors: Seq<RgbColor>)
    requires
        colors.len() <= 40,
    ensures
        x3_chunk(grb_bytes(colors), 0) + x3_chunk(grb_bytes(colors), 1) == grb_bytes(colors),
        x3_packet(ch, grb_bytes(colors), 0).len() == 64,
        x3_packet(ch, grb_bytes(colors), 1).len() == 64,
{
    let grb = grb_bytes(colors);
    assert(x3_chunk(grb, 0) + x3_chunk(grb, 1) =~= grb);
}

/// Only the Z and Elite family has channels to remember, all dark at first.
pub proof fn caches_start_dark(wire: KrakenWire, r: KrakenRgbCache, i: int)
    requires
        call_ensures(KrakenRgbCache::for_wire, (wire,), r),
        0 <= i < 120,
    ensures
        wire == KrakenWire::X3 ==> r is X3,
        wire == KrakenWire::ZElite ==> (r matches KrakenRgbCache::ZElite { ring_grb, ext_grb }
            && ring_grb@[i] == 0 && ext_grb@.len() == 0),
{
}

/// The initialisation is `70 02 01 B8 01`, `70 01` and `10 01`, in this order.
pub proof fn initialisation_is_fixed(r: [Vec<u8>; 3])
    requires
        call_ensures(NzxtKrakenProtocol::initialize, (), r),
    ensures
        r@[0]@ == seq![0x70u8, 0x02, 0x01, 0xB8, 0x01],
        r@[1]@ == seq![0x70u8, 0x01],
        r@[2]@ == seq![0x10u8, 0x01],
{
    let a = INIT_SET;
    let b = INIT_FW_PUSH;
    let c = INIT_STATUS_PUSH;
    assert(a@.len() == 5 && b@.len() == 2 && c@.len() == 2);
    assert(r@[0]@ =~= seq![0x70u8, 0x02, 0x01, 0xB8, 0x01]);
    assert(r@[1]@ =~= seq![0x70u8, 0x01]);
    assert(r@[2]@ =~= seq![0x10u8, 0x01]);
}

/// A status push begins with `75 01` or `75 02` and has 26 bytes. Byte 15 is the liquid
/// temperature in degrees and byte 16 its tenths, of which there are nine at most; two
/// bytes of all ones stand for no temperature, and then nothing is read. Pump and fan
/// have their speed, low byte first, at 17 and 23, and their duty at 19 and 25.
pub proof fn status_pushes_are_read(pkt: &[u8], r: Option<KrakenStatus>)
    requires
        call_ensures(NzxtKrakenProtocol::parse_status, (pkt,), r),
    ensures
        r is Some <==> pkt@.len() >= 26 && pkt@[0] == 0x75 && (pkt@[1] == 0x01 || pkt@[1] == 0x02)
            && (pkt@[15] != 0xFF || pkt@[16] != 0xFF),
        r matches Some(s) ==> {
            &&& s.liquid_temp_tenths / 10 == pkt@[15]
            &&& pkt@[16] <= 9 ==> s.liquid_temp_tenths % 10 == pkt@[16]
            &&& pkt@[16] > 9 ==> s.liquid_temp_tenths % 10 == 9
            &&& s.pump_rpm % 256 == pkt@[17] && s.pump_rpm / 256 == pkt@[18]
            &&& s.pump_duty == pkt@[19]
            &&& s.fan_rpm % 256 == pkt@[23] && s.fan_rpm / 256 == pkt@[24]
            &&& s.fan_duty == pkt@[25]
        },
{
}

/// A report replaces the status exactly where it can be read and polling is not paused.
/// Nothing else of the cooler changes.
pub proof fn reports_are_taken_over(
    d: &mut NzxtKrakenProtocol,
    pkt: &[u8],
    r: Option<KrakenStatus>,
)
    requires
        call_ensures(NzxtKrakenProtocol::handle_packet, (d, pkt), ()),
        call_ensures(NzxtKrakenProtocol::parse_status, (pkt,), r),
    ensures
        !old(d).polling_paused && r is Some ==> Some(final(d).status) == r,
        old(d).polling_paused || r is None ==> final(d).status == old(d).status,
        final(d).wire == old(d).wire,
        final(d).rgb_cache == old(d).rgb_cache,
        final(d).active_bucket == old(d).active_bucket,
        final(d).polling_paused == old(d).polling_paused,
{
}

/// A fixed profile has one duty at all forty points: the one asked for, where it lies
/// between the least and 100, and otherwise the nearer of these.
pub proof fn profiles_are_flat(duty: u8, min_duty: u8, r: [u8; 40], i: int)
    requires
        call_ensures(NzxtKrakenProtocol::build_fixed_profile, (duty, min_duty), r),
        min_duty <= 100,
        0 <= i < 40,
    ensures
        min_duty <= duty <= 100 ==> r@[i] == duty,
        duty < min_duty ==> r@[i] == min_duty,
        duty > 100 ==> r@[i] == 100,
{
}

/// Pump duties go out behind `72 01 00 00`, at 20 or more; fan duties behind
/// `72 02 01 01`, from zero on. Neither goes above 100, and within these bounds each of
/// the forty points is the duty asked for.
pub proof fn duties_have_their_headers(duty: u8, pump: Vec<u8>, fan: Vec<u8>, i: int)
    requires
        call_ensures(NzxtKrakenProtocol::write_pump_duty, (duty,), pump),
        call_ensures(NzxtKrakenProtocol::write_fan_duty, (duty,), fan),
        4 <= i < 44,
    ensures
        pump@.len() == 44 && fan@.len() == 44,
        pump@[0] == 0x72 && pump@[1] == 0x01 && pump@[2] == 0x00 && pump@[3] == 0x00,
        fan@[0] == 0x72 && fan@[1] == 0x02 && fan@[2] == 0x01 && fan@[3] == 0x01,
        20 <= duty <= 100 ==> pump@[i] == duty,
        duty < 20 ==> pump@[i] == 20,
        duty <= 100 ==> fan@[i] == duty,
        duty > 100 ==> pump@[i] == 100 && fan@[i] == 100,
{
}

/// What is remembered of a duty is what its packet asked for; the other duty, both
/// speeds and the temperature stay.
pub proof fn written_duties_are_remembered(
    a: &mut NzxtKrakenProtocol,
    b: &mut NzxtKrakenProtocol,
    duty: u8,
    pump: Vec<u8>,
    fan: Vec<u8>,
)
    requires
        call_ensures(NzxtKrakenProtocol::write_pump_duty, (duty,), pump),
        call_ensures(NzxtKrakenProtocol::pump_duty_written, (a, duty), ()),
        call_ensures(NzxtKrakenProtocol::write_fan_duty, (duty,), fan),
        call_ensures(NzxtKrakenProtocol::fan_duty_written, (b, duty), ()),
    ensures
        final(a).status.pump_duty == pump@[4],
        final(a).status.fan_duty == old(a).status.fan_duty,
        final(a).status.pump_rpm == old(a).status.pump_rpm,
        final(a).status.fan_rpm == old(a).status.fan_rpm,
        final(a).status.liquid_temp_tenths == old(a).status.liquid_temp_tenths,
        final(b).status.fan_duty == fan@[4],
        final(b).status.pump_duty == old(b).status.pump_duty,
        final(b).status.pump_rpm == old(b).status.pump_rpm,
        final(b).status.fan_rpm == old(b).status.fan_rpm,
        final(b).status.liquid_temp_tenths == old(b).status.liquid_temp_tenths,
        final(a).rgb_cache == old(a).rgb_cache && final(b).rgb_cache == old(b).rgb_cache,
{
}

/// The ring buffer has green, red and blue of its first 24 colours in order. Bytes behind
/// the last of these are zero.
pub proof fn rings_are_green_first(colors: &[RgbColor], r: [u8; 120], i: int)
    requires
        call_ensures(NzxtKrakenProtocol::build_ring_grb, (colors,), r),
        0 <= i < 40,
    ensures
        i < 24 && i < colors@.len() ==> r@[3 * i] == colors@[i].g && r@[3 * i + 1] == colors@[i].r
            && r@[3 * i + 2] == colors@[i].b,
        i >= 24 || i >= colors@.len() ==> r@[3 * i] == 0 && r@[3 * i + 1] == 0 && r@[3 * i + 2]
            == 0,
{
    lemma_ring(colors@, i);
}

/// Where colour `i` stands in a ring buffer.
proof fn lemma_ring(colors: Seq<RgbColor>, i: int)
    requires
        0 <= i < 40,
    ensures
        ({
            let r = ring_bytes(colors);
            &&& r.len() == 120
            &&& i < 24 && i < colors.len() ==> r[3 * i] == colors[i].g && r[3 * i + 1]
                == colors[i].r && r[3 * i + 2] == colors[i].b
            &&& i >= 24 || i >= colors.len() ==> r[3 * i] == 0 && r[3 * i + 1] == 0 && r[3 * i + 2]
                == 0
        }),
{
    assert((3 * i) / 3 == i && (3 * i) % 3 == 0);
    assert((3 * i + 1) / 3 == i && (3 * i + 1) % 3 == 1);
    assert((3 * i + 2) / 3 == i && (3 * i + 2) % 3 == 2);
}

/// Whether three packets show colour `i` of a frame of up to 40 on the X-series channel
/// `ch`: data packets `22 10` and `22 11` with twenty colours each, green first, and the
/// commit `22 A0`.
pub open spec fn x3_shows(pkts: Seq<Vec<u8>>, ch: u8, i: int, c: RgbColor) -> bool {
    let data = pkts[i / 20]@;
    let at = 4 + 3 * (i % 20);
    &&& pkts.len() == 3
    &&& data.len() == 64
    &&& data[0] == 0x22 && data[1] == 0x10 + i / 20 && data[2] == ch && data[3] == 0x00
    &&& data[at] == c.g && data[at + 1] == c.r && data[at + 2] == c.b
    &&& pkts[2]@ == seq![
        0x22u8,
        0xA0,
        ch,
        0x00,
        0x01,
        0x00,
        0x00,
        0x28,
        0x00,
        0x00,
        0x80,
        0x00,
        0x32,
        0x00,
        0x00,
        0x01,
    ]
}

/// Where colour `i` stands in an X-series frame.
proof fn lemma_x3(pkts: Seq<Vec<u8>>, ch: u8, colors: Seq<RgbColor>, i: int)
    requires
        is_x3_frame(pkts, ch, colors),
        0 <= i < colors.len() <= 40,
    ensures
        x3_shows(pkts, ch, i, colors[i]),
{
    lemma_grb(colors, i);
    x3_frames_carry_every_led(ch, colors);
    assert(i / 20 == 0 || i / 20 == 1);
    let n = i / 20;
    let k = 3 * (i % 20);
    assert(3 * i == 60 * n + k);
    assert(x3_chunk(grb_bytes(colors), n)[k] == grb_bytes(colors)[3 * i]);
    assert(x3_chunk(grb_bytes(colors), n)[k + 1] == grb_bytes(colors)[3 * i + 1]);
    assert(x3_chunk(grb_bytes(colors), n)[k + 2] == grb_bytes(colors)[3 * i + 2]);
}

/// On the X-series the ring is channel 2 and the accessory header channel 1. Every colour
/// of a frame of up to 40 is sent.
pub proof fn x3_frames_show_their_colors(
    a: &mut NzxtKrakenProtocol,
    b: &mut NzxtKrakenProtocol,
    colors: &[RgbColor],
    ring: Vec<Vec<u8>>,
    ext: Vec<Vec<u8>>,
    i: int,
)
    requires
        call_ensures(NzxtKrakenProtocol::write_ring_frame, (a, colors), ring),
        call_ensures(NzxtKrakenProtocol::write_ext_frame, (b, colors), ext),
        old(a).rgb_cache is X3,
        old(b).rgb_cache is X3,
        0 <= i < colors@.len() <= 40,
    ensures
        x3_shows(ring@, 0x02, i, colors@[i]),
        x3_shows(ext@, 0x01, i, colors@[i]),
        final(a).rgb_cache is X3 && final(b).rgb_cache is X3,
{
    lemma_x3(ring@, 0x02, colors@, i);
    lemma_x3(ext@, 0x01, colors@, i);
}

/// On the Z and Elite family the ring goes out behind `26 14 01 01`, its colours green
/// first; the accessory header follows behind `26 14 02 02` with what it was last given.
pub proof fn rings_go_out_with_the_accessories(
    d: &mut NzxtKrakenProtocol,
    colors: &[RgbColor],
    r: Vec<Vec<u8>>,
    i: int,
)
    requires
        call_ensures(NzxtKrakenProtocol::write_ring_frame, (d, colors), r),
        old(d).rgb_cache is ZElite,
        0 <= i < 24,
        i < colors@.len(),
    ensures
        r@.len() >= 1 && r@[0]@.len() == 124,
        r@[0]@.take(4) == seq![0x26u8, 0x14, 0x01, 0x01],
        r@[0]@[4 + 3 * i] == colors@[i].g,
        r@[0]@[5 + 3 * i] == colors@[i].r,
        r@[0]@[6 + 3 * i] == colors@[i].b,
        r@.len() == 2 <==> old(d).rgb_cache->ext_grb@.len() > 0,
        r@.len() == 2 ==> r@[1]@ == seq![0x26u8, 0x14, 0x02, 0x02]
            + old(d).rgb_cache->ext_grb@,
        final(d).rgb_cache is ZElite,
        final(d).rgb_cache->ext_grb@ == old(d).rgb_cache->ext_grb@,
{
    lemma_ring(colors@, i);
}

/// On the Z and Elite family the accessory header goes out behind `26 14 02 02`, after
/// the ring as it was last given.
pub proof fn accessories_go_out_with_the_ring(
    d: &mut NzxtKrakenProtocol,
    colors: &[RgbColor],
    r: Vec<Vec<u8>>,
    i: int,
)
    requires
        call_ensures(NzxtKrakenProtocol::write_ext_frame, (d, colors), r),
        old(d).rgb_cache is ZElite,
        0 <= i < colors@.len(),
    ensures
        r@.len() == 2,
        r@[0]@ == seq![0x26u8, 0x14, 0x01, 0x01] + old(d).rgb_cache->ring_grb@,
        r@[1]@.len() == 4 + 3 * colors@.len(),
        r@[1]@.take(4) == seq![0x26u8, 0x14, 0x02, 0x02],
        r@[1]@[4 + 3 * i] == colors@[i].g,
        r@[1]@[5 + 3 * i] == colors@[i].r,
        r@[1]@[6 + 3 * i] == colors@[i].b,
        final(d).rgb_cache is ZElite,
        final(d).rgb_cache->ring_grb@ == old(d).rgb_cache->ring_grb@,
{
    lemma_grb(colors@, i);
}

/// A channel that was given colours is sent with them again when the other channel is
/// given some.
pub proof fn channels_are_sent_again(
    a: &mut NzxtKrakenProtocol,
    b: &mut NzxtKrakenProtocol,
    first: &[RgbColor],
    second: &[RgbColor],
    r: Vec<Vec<u8>>,
    s: Vec<Vec<u8>>,
)
    requires
        old(a).rgb_cache is ZElite,
        call_ensures(NzxtKrakenProtocol::write_ring_frame, (a, first), r),
        *old(b) == *final(a),
        call_ensures(NzxtKrakenProtocol::write_ext_frame, (b, second), s),
    ensures
        s@[0]@ == r@[0]@,
{
}

/// The logo packet is `2A 04 04 04 00 32 00`, the colour green first, 46 zeros,
/// `01 00 01 03` and four zeros.
pub proof fn logos_show_their_color(
    d: NzxtKrakenProtocol,
    color: RgbColor,
    r: [u8; 64],
    i: int,
)
    requires
        call_ensures(NzxtKrakenProtocol::write_logo, (&d, color), r),
        d.wire is X3,
        10 <= i < 64,
    ensures
        r@[0] == 0x2A && r@[1] == 0x04 && r@[2] == 0x04 && r@[3] == 0x04 && r@[4] == 0x00 && r@[5]
            == 0x32 && r@[6] == 0x00,
        r@[7] == color.g && r@[8] == color.r && r@[9] == color.b,
        r@[i] == if i == 56 || i == 58 {
            1u8
        } else if i == 59 {
            3
        } else {
            0
        },
{
}

} // verus!
