//! Wire commands and reports of the SteelSeries Arctis Nova Pro Wireless headset.
//! A changed setting has to be followed by `persist` to survive a power cycle.
//!
//! Equalizer levels are held in thousandths of a decibel.

use vstd::prelude::*;
use vstd::slice::*;

verus! {

/// Length of a report.
pub const PACKET_SIZE: usize = 64;

/// The raw band level that means 0 dB.
pub const EQ_BASELINE: u8 = 20;

/// Power status: switched off or out of reach.
pub const POWER_OFFLINE: u8 = 0x01;

/// Power status: charging.
pub const POWER_CHARGING: u8 = 0x02;

/// Power status: in use.
pub const POWER_ONLINE: u8 = 0x08;

/// Host command, and the device's reply to one.
pub const REPORT_CMD: u8 = 0x06;

/// Unsolicited notification.
pub const REPORT_NOTIFY: u8 = 0x07;

/// Most packets that one polling pass drains.
pub const MAX_POLL_READS: usize = 32;

/// Message identifiers; a command and the notification about the same setting share one.
#[derive(Debug, Clone, Copy, PartialEq, Eq, Structural)]
pub enum Msg {
    Persist,
    Settings,
    StationVolume,
    MicGain,
    EqPreset,
    EqBands,
    MicVolume,
    Sidetone,
    ChatMix,
    ChatmixDisplay,
    ScreenMode,
    SonarEq,
    Status,
    NcLevel,
    NcMode,
    MicLedBrightness,
    AutoOff,
    WirelessMode,
}

/// The wire byte of a message.
pub open spec fn msg_id(m: Msg) -> u8 {
    match m {
        Msg::Persist => 0x09,
        Msg::Settings => 0x20,
        Msg::StationVolume => 0x25,
        Msg::MicGain => 0x27,
        Msg::EqPreset => 0x2e,
        Msg::EqBands => 0x33,
        Msg::MicVolume => 0x37,
        Msg::Sidetone => 0x39,
        Msg::ChatMix => 0x45,
        Msg::ChatmixDisplay => 0x49,
        Msg::ScreenMode => 0x89,
        Msg::SonarEq => 0x8d,
        Msg::Status => 0xb0,
        Msg::NcLevel => 0xb9,
        Msg::NcMode => 0xbd,
        Msg::MicLedBrightness => 0xbf,
        Msg::AutoOff => 0xc1,
        Msg::WirelessMode => 0xc3,
    }
}

impl Msg {
    /// The wire byte of this message.
    pub fn id(self) -> (r: u8)
        ensures
            r == msg_id(self),
    {
        match self {
            Msg::Persist => 0x09,
            Msg::Settings => 0x20,
            Msg::StationVolume => 0x25,
            Msg::MicGain => 0x27,
            Msg::EqPreset => 0x2e,
            Msg::EqBands => 0x33,
            Msg::MicVolume => 0x37,
            Msg::Sidetone => 0x39,
            Msg::ChatMix => 0x45,
            Msg::ChatmixDisplay => 0x49,
            Msg::ScreenMode => 0x89,
            Msg::SonarEq => 0x8d,
            Msg::Status => 0xb0,
            Msg::NcLevel => 0xb9,
            Msg::NcMode => 0xbd,
            Msg::MicLedBrightness => 0xbf,
            Msg::AutoOff => 0xc1,
            Msg::WirelessMode => 0xc3,
        }
    }
}

/// Fields of a status reply.
#[derive(Debug, Clone, Copy, PartialEq, Eq, Structural)]
pub struct ArctisStatusFields {
    pub headset_battery: u8,
    pub slot_battery: u8,
    pub power_status: u8,
    pub mic_muted: bool,
    pub nc_mode: u8,
    pub nc_level: u8,
    pub wireless_mode: u8,
    pub auto_off_raw: u8,
    pub mic_led_brightness: u8,
    pub bt_powerup_state: u8,
    pub bt_auto_mute: u8,
    pub bt_power_status: u8,
    pub bt_connection: u8,
    pub bt_wireless_pairing: u8,
}

/// Fields of a settings reply. The band levels are those of the custom curve.
#[derive(Debug, Clone, Copy)]
pub struct ArctisSettingsFields {
    pub gain: u8,
    pub eq_preset: u8,
    pub sidetone: u8,
    pub eq_bands: [i32; 10],
}

/// Volumes of the two ChatMix sides, in percent.
#[derive(Debug, Clone, Copy, PartialEq, Eq, Structural)]
pub struct ArctisChatMixFields {
    pub game: u8,
    pub chat: u8,
}

/// A report without the zero byte in front of it. `prefixed` says whether the system puts
/// one there, as hidraw on Linux does; elsewhere a report is taken as it is.
pub open spec fn stripped(data: Seq<u8>, prefixed: bool) -> Seq<u8> {
    if prefixed && data.len() > 0 && data[0] == 0 {
        data.subrange(1, data.len() as int)
    } else {
        data
    }
}

/// Drops the zero byte in front of a report where the system puts one there.
pub fn strip_report_id(data: &[u8], prefixed: bool) -> (r: &[u8])
    ensures
        r@ == stripped(data@, prefixed),
{
    if prefixed && data.len() > 0 && data[0] == 0x00 {
        slice_subrange(data, 1, data.len())
    } else {
        data
    }
}

/// Whether a report starts with the two given bytes and is at least `len` long.
pub open spec fn is_report(d: Seq<u8>, len: nat, report: u8, msg: Msg) -> bool {
    d.len() >= len && d[0] == report && d[1] == msg_id(msg)
}

/// Whether a report starts with the two given bytes and is at least `len` long.
fn has_prefix(d: &[u8], len: usize, report: u8, msg: Msg) -> (r: bool)
    requires
        len >= 2,
    ensures
        r == is_report(d@, len as nat, report, msg),
{
    d.len() >= len && d[0] == report && d[1] == msg.id()
}

/// The ChatMix volumes of a notification.
pub open spec fn chatmix_fields(data: Seq<u8>, prefixed: bool) -> Option<ArctisChatMixFields> {
    let d = stripped(data, prefixed);
    if is_report(d, 4, REPORT_NOTIFY, Msg::ChatMix) {
        Some(ArctisChatMixFields { game: d[2], chat: d[3] })
    } else {
        None
    }
}

/// Decodes a ChatMix notification.
pub fn parse_chatmix(data: &[u8], prefixed: bool) -> (r: Option<ArctisChatMixFields>)
    ensures
        r == chatmix_fields(data@, prefixed),
{
    let d = strip_report_id(data, prefixed);
    if has_prefix(d, 4, REPORT_NOTIFY, Msg::ChatMix) {
        Some(ArctisChatMixFields { game: d[2], chat: d[3] })
    } else {
        None
    }
}

/// The byte that a short notification about `msg` carries.
pub open spec fn notified_byte(data: Seq<u8>, prefixed: bool, msg: Msg) -> Option<u8> {
    let d = stripped(data, prefixed);
    if is_report(d, 3, REPORT_NOTIFY, msg) {
        Some(d[2])
    } else {
        None
    }
}

/// Decodes a microphone-volume notification (`07 37 <raw>`, raw 1 to 10).
pub fn parse_mic_volume(data: &[u8], prefixed: bool) -> (r: Option<u8>)
    ensures
        r == notified_byte(data@, prefixed, Msg::MicVolume),
{
    let d = strip_report_id(data, prefixed);
    if has_prefix(d, 3, REPORT_NOTIFY, Msg::MicVolume) {
        Some(d[2])
    } else {
        None
    }
}

/// Decodes a base-station volume notification (`07 25 <raw>`).
pub fn parse_station_volume(data: &[u8], prefixed: bool) -> (r: Option<u8>)
    ensures
        r == notified_byte(data@, prefixed, Msg::StationVolume),
{
    let d = strip_report_id(data, prefixed);
    if has_prefix(d, 3, REPORT_NOTIFY, Msg::StationVolume) {
        Some(d[2])
    } else {
        None
    }
}

/// `v`, but at most `max`.
pub open spec fn at_most(v: u8, max: u8) -> u8 {
    if v < max {
        v
    } else {
        max
    }
}

/// `v`, but at most `max`.
fn cap(v: u8, max: u8) -> (r: u8)
    ensures
        r == at_most(v, max),
{
    if v < max {
        v
    } else {
        max
    }
}

/// A battery level out of eight as percent.
pub open spec fn battery_percent(raw: u8) -> u8 {
    (at_most(raw, 8) as int * 100 / 8) as u8
}

/// The fields of a status reply.
pub open spec fn status_fields(data: Seq<u8>, prefixed: bool) -> Option<ArctisStatusFields> {
    let d = stripped(data, prefixed);
    if is_report(d, 0x10, REPORT_CMD, Msg::Status) {
        Some(
            ArctisStatusFields {
                power_status: d[0x0F],
                headset_battery: battery_percent(d[0x06]),
                slot_battery: battery_percent(d[0x07]),
                nc_level: at_most(d[0x08], 10),
                mic_muted: d[0x09] != 0,
                nc_mode: at_most(d[0x0A], 2),
                mic_led_brightness: (at_most(d[0x0B], 10) * 10) as u8,
                auto_off_raw: at_most(d[0x0C], 6),
                wireless_mode: at_most(d[0x0D], 1),
                bt_powerup_state: d[0x02],
                bt_auto_mute: d[0x03],
                bt_power_status: d[0x04],
                bt_connection: d[0x05],
                bt_wireless_pairing: d[0x0E],
            },
        )
    } else {
        None
    }
}

/// Decodes a status reply.
pub fn parse_status(data: &[u8], prefixed: bool) -> (r: Option<ArctisStatusFields>)
    ensures
        r == status_fields(data@, prefixed),
{
    let d = strip_report_id(data, prefixed);
    if !has_prefix(d, 0x10, REPORT_CMD, Msg::Status) {
        return None;
    }
    Some(
        ArctisStatusFields {
            power_status: d[0x0F],
            headset_battery: ((cap(d[0x06], 8) as u32) * 100 / 8) as u8,
            slot_battery: ((cap(d[0x07], 8) as u32) * 100 / 8) as u8,
            nc_level: cap(d[0x08], 10),
            mic_muted: d[0x09] != 0,
            nc_mode: cap(d[0x0A], 2),
            mic_led_brightness: cap(d[0x0B], 10) * 10,
            auto_off_raw: cap(d[0x0C], 6),
            wireless_mode: cap(d[0x0D], 1),
            bt_powerup_state: d[0x02],
            bt_auto_mute: d[0x03],
            bt_power_status: d[0x04],
            bt_connection: d[0x05],
            bt_wireless_pairing: d[0x0E],
        },
    )
}

/// The level in thousandths of a decibel that a raw band byte stands for: half a
/// decibel per step.
pub open spec fn raw_level(raw: u8) -> i32 {
    ((raw - EQ_BASELINE) * 500) as i32
}

/// Converts a raw band byte to a level.
pub fn eq_raw_to_db(raw: u8) -> (r: i32)
    ensures
        r == raw_level(raw),
{
    (raw as i32 - EQ_BASELINE as i32) * 500
}

/// The number of half-decibel steps nearest to a level; ties go away from zero.
pub open spec fn nearest_step(level: int) -> int {
    if level >= 0 {
        (level + 250) / 500
    } else {
        -((250 - level) / 500)
    }
}

/// The raw band byte for a level.
pub open spec fn level_raw(level: int) -> u8 {
    let v = EQ_BASELINE + nearest_step(level);
    if v < 0 {
        0
    } else if v > 255 {
        255
    } else {
        v as u8
    }
}

/// Converts a level to a raw band byte.
pub fn eq_db_to_raw(level: i32) -> (r: u8)
    ensures
        r == level_raw(level as int),
{
    let wide: i64 = level as i64;
    let step: i64 = if wide >= 0 {
        (wide + 250) / 500
    } else {
        -((250 - wide) / 500)
    };
    let v: i64 = EQ_BASELINE as i64 + step;
    if v < 0 {
        0
    } else if v > 255 {
        255
    } else {
        v as u8
    }
}

/// Whether `f` are the fields of the settings reply `data`.
pub open spec fn is_settings(data: Seq<u8>, prefixed: bool, f: ArctisSettingsFields) -> bool {
    let d = stripped(data, prefixed);
    &&& f.gain == if d[0x04] == 0x02 {
        1u8
    } else {
        0u8
    }
    &&& f.eq_preset == d[0x06]
    &&& f.sidetone == at_most(d[0x12], 3)
    &&& f.eq_bands@ == Seq::new(10, |i: int| raw_level(d[7 + i]))
}

/// Decodes a settings reply: gain at 4, preset at 6, ten bands from 7, sidetone at 18.
pub fn parse_settings(data: &[u8], prefixed: bool) -> (r: Option<ArctisSettingsFields>)
    ensures
        r is Some <==> is_report(stripped(data@, prefixed), 0x13, REPORT_CMD, Msg::Settings),
        r is Some ==> is_settings(data@, prefixed, r->Some_0),
{
    let d = strip_report_id(data, prefixed);
    if !has_prefix(d, 0x13, REPORT_CMD, Msg::Settings) {
        return None;
    }
    let mut eq_bands: [i32; 10] = [0i32; 10];
    let mut i: usize = 0;
    while i < 10
        invariant
            i <= 10,
            d@.len() >= 0x13,
            eq_bands@.len() == 10,
            forall|k: int| 0 <= k < i ==> eq_bands@[k] == raw_level(d@[7 + k]),
        decreases 10 - i,
    {
        eq_bands[i] = eq_raw_to_db(d[7 + i]);
        i = i + 1;
    }
    proof {
        assert(eq_bands@ =~= Seq::new(10, |i: int| raw_level(d@[7 + i])));
    }
    Some(
        ArctisSettingsFields {
            gain: if d[0x04] == 0x02 {
                1
            } else {
                0
            },
            eq_preset: d[0x06],
            sidetone: cap(d[0x12], 3),
            eq_bands,
        },
    )
}

/// What one polling pass brought in.
#[derive(Debug)]
pub struct ArctisPoll {
    pub status: Option<ArctisStatusFields>,
    pub settings: Option<ArctisSettingsFields>,
    pub chatmix: Vec<ArctisChatMixFields>,
    /// Raw microphone level of the last notification about it.
    pub mic_volume_raw: Option<u8>,
    /// Raw base-station volume of the last notification about it.
    pub station_volume_raw: Option<u8>,
}

/// The packets that a pass looks at: those before the first empty one, and at most
/// `MAX_POLL_READS`.
pub open spec fn drained(packets: Seq<Vec<u8>>) -> Seq<Seq<u8>> {
    drained_from(packets, 0)
}

/// The packets that a pass looks at from position `i` on.
pub open spec fn drained_from(packets: Seq<Vec<u8>>, i: nat) -> Seq<Seq<u8>>
    decreases packets.len() - i,
{
    if i >= packets.len() || i >= MAX_POLL_READS || packets[i as int]@.len() == 0 {
        Seq::empty()
    } else {
        seq![packets[i as int]@] + drained_from(packets, i + 1)
    }
}

/// Whether a packet is a settings reply; status replies are recognised first.
pub open spec fn settings_packet(p: Seq<u8>, prefixed: bool) -> bool {
    is_report(stripped(p, prefixed), 0x13, REPORT_CMD, Msg::Settings)
}

impl ArctisPoll {
    /// Whether this is the outcome of the packets `ps`: the last report of each kind
    /// counts, and ChatMix notifications are kept in order.
    pub open spec fn is_outcome(self, ps: Seq<Seq<u8>>, prefixed: bool) -> bool {
        &&& self.status == last_status(ps, prefixed)
        &&& match last_settings(ps, prefixed) {
            Some(p) => self.settings is Some && is_settings(p, prefixed, self.settings->Some_0),
            None => self.settings is None,
        }
        &&& self.chatmix@ == all_chatmix(ps, prefixed)
        &&& self.mic_volume_raw == last_notified(ps, prefixed, Msg::MicVolume)
        &&& self.station_volume_raw == last_notified(ps, prefixed, Msg::StationVolume)
    }

    /// The outcome of no packets at all.
    pub fn empty() -> (r: Self)
        ensures
            forall|prefixed: bool| #[trigger] r.is_outcome(Seq::empty(), prefixed),
    {
        ArctisPoll {
            status: None,
            settings: None,
            chatmix: Vec::new(),
            mic_volume_raw: None,
            station_volume_raw: None,
        }
    }

    /// Takes one more packet into account.
    fn take_packet(&mut self, p: &[u8], prefixed: bool, Ghost(before): Ghost<Seq<Seq<u8>>>)
        requires
            old(self).is_outcome(before, prefixed),
        ensures
            final(self).is_outcome(before.push(p@), prefixed),
    {
        proof {
            assert(before.push(p@).drop_last() =~= before);
        }
        if let Some(s) = parse_status(p, prefixed) {
            self.status = Some(s);
        } else if let Some(s) = parse_settings(p, prefixed) {
            self.settings = Some(s);
        } else if let Some(cm) = parse_chatmix(p, prefixed) {
            self.chatmix.push(cm);
        } else if let Some(raw) = parse_mic_volume(p, prefixed) {
            self.mic_volume_raw = Some(raw);
        } else if let Some(raw) = parse_station_volume(p, prefixed) {
            self.station_volume_raw = Some(raw);
        }
    }
}

/// The last status reply among `ps`.
pub open spec fn last_status(ps: Seq<Seq<u8>>, prefixed: bool) -> Option<ArctisStatusFields>
    decreases ps.len(),
{
    if ps.len() == 0 {
        None
    } else if status_fields(ps.last(), prefixed) is Some {
        status_fields(ps.last(), prefixed)
    } else {
        last_status(ps.drop_last(), prefixed)
    }
}

/// The last settings reply among `ps`.
pub open spec fn last_settings(ps: Seq<Seq<u8>>, prefixed: bool) -> Option<Seq<u8>>
    decreases ps.len(),
{
    if ps.len() == 0 {
        None
    } else if settings_packet(ps.last(), prefixed) {
        Some(ps.last())
    } else {
        last_settings(ps.drop_last(), prefixed)
    }
}

/// The ChatMix notifications among `ps`.
pub open spec fn all_chatmix(ps: Seq<Seq<u8>>, prefixed: bool) -> Seq<ArctisChatMixFields>
    decreases ps.len(),
{
    if ps.len() == 0 {
        Seq::empty()
    } else {
        match chatmix_fields(ps.last(), prefixed) {
            Some(f) => all_chatmix(ps.drop_last(), prefixed).push(f),
            None => all_chatmix(ps.drop_last(), prefixed),
        }
    }
}

/// The byte of the last notification about `msg` among `ps`.
pub open spec fn last_notified(ps: Seq<Seq<u8>>, prefixed: bool, msg: Msg) -> Option<u8>
    decreases ps.len(),
{
    if ps.len() == 0 {
        None
    } else if notified_byte(ps.last(), prefixed, msg) is Some {
        notified_byte(ps.last(), prefixed, msg)
    } else {
        last_notified(ps.drop_last(), prefixed, msg)
    }
}

/// The headset's command set.
#[derive(Debug, Clone, Copy)]
pub struct ArctisProtocol;

/// A command with one argument.
pub open spec fn command(msg: Msg, arg: u8) -> Seq<u8> {
    seq![REPORT_CMD, msg_id(msg), arg]
}

/// A command without arguments.
pub open spec fn request(msg: Msg) -> Seq<u8> {
    seq![REPORT_CMD, msg_id(msg)]
}

/// Builds a command with one argument.
fn build_command(msg: Msg, arg: u8) -> (r: Vec<u8>)
    ensures
        r@ == command(msg, arg),
{
    let r: Vec<u8> = vec![REPORT_CMD, msg.id(), arg];
    proof {
        assert(r@ =~= command(msg, arg));
    }
    r
}

/// Builds a command without arguments.
fn build_request(msg: Msg) -> (r: Vec<u8>)
    ensures
        r@ == request(msg),
{
    let r: Vec<u8> = vec![REPORT_CMD, msg.id()];
    proof {
        assert(r@ =~= request(msg));
    }
    r
}

/// A level limited to ten decibels either way.
pub open spec fn within_ten(level: int) -> int {
    if level < -10000 {
        -10000
    } else if level > 10000 {
        10000
    } else {
        level
    }
}

impl ArctisProtocol {
    /// The command set.
    pub fn new() -> (r: Self)
        ensures
            r == ArctisProtocol,
    {
        ArctisProtocol
    }

    /// Shows the ChatMix dial on the base station.
    pub fn activate_chatmix_display(&self) -> (r: Vec<u8>)
        ensures
            r@ == command(Msg::ChatmixDisplay, 1),
    {
        build_command(Msg::ChatmixDisplay, 0x01)
    }

    /// Commits the settings to non-volatile memory.
    pub fn persist(&self) -> (r: Vec<u8>)
        ensures
            r@ == request(Msg::Persist),
    {
        build_request(Msg::Persist)
    }

    /// Noise cancelling: 0 off, 1 transparent, 2 on.
    pub fn send_nc_mode(&self, mode: u8) -> (r: Vec<u8>)
        ensures
            r@ == command(Msg::NcMode, at_most(mode, 2)),
    {
        build_command(Msg::NcMode, cap(mode, 2))
    }

    /// Sidetone level, 0 to 3.
    pub fn send_sidetone(&self, level: u8) -> (r: Vec<u8>)
        ensures
            r@ == command(Msg::Sidetone, at_most(level, 3)),
    {
        build_command(Msg::Sidetone, cap(level, 3))
    }

    /// Wireless mode: 0 speed, 1 range.
    pub fn send_wireless_mode(&self, mode: u8) -> (r: Vec<u8>)
        ensures
            r@ == command(Msg::WirelessMode, at_most(mode, 1)),
    {
        build_command(Msg::WirelessMode, cap(mode, 1))
    }

    /// Auto-off timeout, 0 to 6.
    pub fn send_auto_off(&self, index: u8) -> (r: Vec<u8>)
        ensures
            r@ == command(Msg::AutoOff, at_most(index, 6)),
    {
        build_command(Msg::AutoOff, cap(index, 6))
    }

    /// Transparency level, 0 to 10.
    pub fn send_nc_level(&self, level: u8) -> (r: Vec<u8>)
        ensures
            r@ == command(Msg::NcLevel, at_most(level, 10)),
    {
        build_command(Msg::NcLevel, cap(level, 10))
    }

    /// Microphone volume, 1 (muted) to 10.
    pub fn send_mic_volume(&self, level: u8) -> (r: Vec<u8>)
        ensures
            r@ == command(Msg::MicVolume, if level < 1 { 1 } else { at_most(level, 10) }),
    {
        let level: u8 = if level < 1 {
            1
        } else {
            cap(level, 10)
        };
        build_command(Msg::MicVolume, level)
    }

    /// Microphone gain.
    pub fn send_mic_gain(&self, high: bool) -> (r: Vec<u8>)
        ensures
            r@ == command(Msg::MicGain, if high { 2 } else { 1 }),
    {
        build_command(
            Msg::MicGain,
            if high {
                0x02
            } else {
                0x01
            },
        )
    }

    /// Whether the headset takes its equalizer from Sonar.
    pub fn send_sonar_eq(&self, enabled: bool) -> (r: Vec<u8>)
        ensures
            r@ == command(Msg::SonarEq, if enabled { 1 } else { 0 }),
    {
        build_command(
            Msg::SonarEq,
            if enabled {
                1
            } else {
                0
            },
        )
    }

    /// Base-station screen: detailed or simple.
    pub fn send_screen_mode(&self, simple: bool) -> (r: Vec<u8>)
        ensures
            r@ == command(Msg::ScreenMode, if simple { 1 } else { 0 }),
    {
        build_command(
            Msg::ScreenMode,
            if simple {
                1
            } else {
                0
            },
        )
    }

    /// Brightness of the microphone LED in percent, sent in tenths.
    pub fn send_mic_led_brightness(&self, percent: u8) -> (r: Vec<u8>)
        ensures
            r@ == command(Msg::MicLedBrightness, at_most(percent / 10, 10)),
    {
        build_command(Msg::MicLedBrightness, cap(percent / 10, 10))
    }

    /// Selects an equalizer preset by its device byte.
    pub fn send_eq_preset(&self, preset: u8) -> (r: Vec<u8>)
        ensures
            r@ == command(Msg::EqPreset, preset),
    {
        build_command(Msg::EqPreset, preset)
    }

    /// Writes the custom curve. Levels are limited to ten decibels either way.
    pub fn send_eq_bands(&self, levels: &[i32]) -> (r: Vec<u8>)
        ensures
            r@ == request(Msg::EqBands) + Seq::new(
                levels@.len(),
                |i: int| level_raw(within_ten(levels@[i] as int)),
            ),
    {
        let mut out = build_request(Msg::EqBands);
        let mut i: usize = 0;
        while i < levels.len()
            invariant
                i <= levels@.len(),
                out@ == request(Msg::EqBands) + Seq::new(
                    i as nat,
                    |k: int| level_raw(within_ten(levels@[k] as int)),
                ),
            decreases levels@.len() - i,
        {
            let level: i32 = levels[i];
            let level: i32 = if level < -10000 {
                -10000
            } else if level > 10000 {
                10000
            } else {
                level
            };
            out.push(eq_db_to_raw(level));
            i = i + 1;
            proof {
                assert(out@ =~= request(Msg::EqBands) + Seq::new(
                    i as nat,
                    |k: int| level_raw(within_ten(levels@[k] as int)),
                ));
            }
        }
        out
    }

    /// The two requests that start a polling pass.
    pub fn poll_requests(&self) -> (r: [Vec<u8>; 2])
        ensures
            r@[0]@ == request(Msg::Status),
            r@[1]@ == request(Msg::Settings),
    {
        [build_request(Msg::Status), build_request(Msg::Settings)]
    }

    /// Sorts the packets that a polling pass read, in the order they came. The pass ends
    /// at the first empty packet and after `MAX_POLL_READS`. `prefixed` says whether the
    /// system puts a zero byte in front of reports.
    pub fn poll(&self, packets: &[Vec<u8>], prefixed: bool) -> (r: ArctisPoll)
        ensures
            r.is_outcome(drained(packets@), prefixed),
    {
        let mut out = ArctisPoll::empty();
        let mut i: usize = 0;
        let ghost mut seen: Seq<Seq<u8>> = Seq::empty();
        proof {
            assert(seen + drained_from(packets@, 0) =~= drained(packets@));
        }
        while i < packets.len() && i < MAX_POLL_READS && packets[i].len() > 0
            invariant
                i <= packets@.len(),
                out.is_outcome(seen, prefixed),
                seen + drained_from(packets@, i as nat) == drained(packets@),
            ensures
                out.is_outcome(drained(packets@), prefixed),
            decreases packets@.len() - i,
        {
            out.take_packet(&packets[i], prefixed, Ghost(seen));
            proof {
                let p = packets@[i as int]@;
                assert(seen + (seq![p] + drained_from(packets@, (i + 1) as nat)) =~= seen.push(p)
                    + drained_from(packets@, (i + 1) as nat));
                seen = seen.push(p);
            }
            i = i + 1;
            proof {
                assert(seen + Seq::<Seq<u8>>::empty() =~= seen);
            }
        }
        proof {
            assert(seen + Seq::<Seq<u8>>::empty() =~= seen);
        }
        out
    }
}

/// A raw band byte survives the way to a level and back.
pub proof fn eq_raw_round_trips(raw: u8)
    ensures
        level_raw(raw_level(raw) as int) == raw,
{
}

/// Within ten decibels, a level that is a multiple of half a decibel survives the way
/// to a raw byte and back; any other moves by at most a quarter of a decibel.
pub proof fn eq_level_is_nearly_kept(level: int)
    requires
        -10000 <= level <= 10000,
    ensures
        -250 <= raw_level(level_raw(level)) - level <= 250,
        level % 500 == 0 ==> raw_level(level_raw(level)) == level,
{
}

/// Reports of different kinds are never mistaken for one another.
pub proof fn reports_have_one_kind(data: Seq<u8>, prefixed: bool)
    ensures
        status_fields(data, prefixed) is Some ==> !settings_packet(data, prefixed)
            && chatmix_fields(data, prefixed) is None && notified_byte(
            data,
            prefixed,
            Msg::MicVolume,
        ) is None && notified_byte(data, prefixed, Msg::StationVolume) is None,
        settings_packet(data, prefixed) ==> chatmix_fields(data, prefixed) is None
            && notified_byte(data, prefixed, Msg::MicVolume) is None && notified_byte(
            data,
            prefixed,
            Msg::StationVolume,
        ) is None,
        chatmix_fields(data, prefixed) is Some ==> notified_byte(data, prefixed, Msg::MicVolume)
            is None && notified_byte(data, prefixed, Msg::StationVolume) is None,
        notified_byte(data, prefixed, Msg::MicVolume) is Some ==> notified_byte(
            data,
            prefixed,
            Msg::StationVolume,
        ) is None,
{
}

/// A polling pass never looks at more than `MAX_POLL_READS` packets.
pub proof fn poll_is_bounded(packets: Seq<Vec<u8>>)
    ensures
        drained(packets).len() <= MAX_POLL_READS,
{
    lemma_drained_len(packets, 0);
}

/// The rest of a pass fits in what is left of its budget.
proof fn lemma_drained_len(packets: Seq<Vec<u8>>, i: nat)
    requires
        i <= MAX_POLL_READS,
    ensures
        drained_from(packets, i).len() <= MAX_POLL_READS - i,
    decreases packets.len() - i,
{
    if i < packets.len() && i < MAX_POLL_READS && packets[i as int]@.len() > 0 {
        lemma_drained_len(packets, i + 1);
    }
}

/// Every setting goes out under the number that the headset knows it by, with its value
/// limited to the setting's range.
pub proof fn settings_have_their_numbers(
    p: ArctisProtocol,
    v: u8,
    nc_mode: Vec<u8>,
    sidetone: Vec<u8>,
    wireless: Vec<u8>,
    auto_off: Vec<u8>,
    nc_level: Vec<u8>,
    mic_volume: Vec<u8>,
    preset: Vec<u8>,
)
    requires
        call_ensures(ArctisProtocol::send_nc_mode, (&p, v), nc_mode),
        call_ensures(ArctisProtocol::send_sidetone, (&p, v), sidetone),
        call_ensures(ArctisProtocol::send_wireless_mode, (&p, v), wireless),
        call_ensures(ArctisProtocol::send_auto_off, (&p, v), auto_off),
        call_ensures(ArctisProtocol::send_nc_level, (&p, v), nc_level),
        call_ensures(ArctisProtocol::send_mic_volume, (&p, v), mic_volume),
        call_ensures(ArctisProtocol::send_eq_preset, (&p, v), preset),
    ensures
        nc_mode@ == seq![0x06u8, 0xbd, if v > 2 { 2 } else { v }],
        sidetone@ == seq![0x06u8, 0x39, if v > 3 { 3 } else { v }],
        wireless@ == seq![0x06u8, 0xc3, if v > 1 { 1 } else { v }],
        auto_off@ == seq![0x06u8, 0xc1, if v > 6 { 6 } else { v }],
        nc_level@ == seq![0x06u8, 0xb9, if v > 10 { 10 } else { v }],
        mic_volume@ == seq![0x06u8, 0x37, if v > 10 { 10 } else if v == 0 { 1 } else { v }],
        preset@ == seq![0x06u8, 0x2e, v],
{
}

/// Switches go out under their numbers: high gain is two and low gain one, anything else
/// that is on is one and off zero. Requests carry nothing but their number.
pub proof fn switches_have_their_numbers(
    p: ArctisProtocol,
    on: bool,
    percent: u8,
    gain: Vec<u8>,
    sonar: Vec<u8>,
    screen: Vec<u8>,
    led: Vec<u8>,
    dial: Vec<u8>,
    persist: Vec<u8>,
    polls: [Vec<u8>; 2],
)
    requires
        call_ensures(ArctisProtocol::send_mic_gain, (&p, on), gain),
        call_ensures(ArctisProtocol::send_sonar_eq, (&p, on), sonar),
        call_ensures(ArctisProtocol::send_screen_mode, (&p, on), screen),
        call_ensures(ArctisProtocol::send_mic_led_brightness, (&p, percent), led),
        call_ensures(ArctisProtocol::activate_chatmix_display, (&p,), dial),
        call_ensures(ArctisProtocol::persist, (&p,), persist),
        call_ensures(ArctisProtocol::poll_requests, (&p,), polls),
    ensures
        gain@ == seq![0x06u8, 0x27, if on { 2 } else { 1 }],
        sonar@ == seq![0x06u8, 0x8d, if on { 1 } else { 0 }],
        screen@ == seq![0x06u8, 0x89, if on { 1 } else { 0 }],
        led@.len() == 3 && led@[0] == 0x06 && led@[1] == 0xbf && led@[2] <= 10,
        percent <= 100 ==> 10 * led@[2] <= percent < 10 * led@[2] + 10,
        percent > 100 ==> led@[2] == 10,
        dial@ == seq![0x06u8, 0x49, 0x01],
        persist@ == seq![0x06u8, 0x09],
        polls@[0]@ == seq![0x06u8, 0xb0],
        polls@[1]@ == seq![0x06u8, 0x20],
{
}

/// A custom curve is sent band by band in its order. Twenty stands for 0 dB and every step
/// for half a decibel; a level within ten decibels is sent as the nearest step, and one
/// beyond them as the outermost.
pub proof fn curves_are_sent_in_half_decibels(
    p: ArctisProtocol,
    levels: &[i32],
    r: Vec<u8>,
    i: int,
)
    requires
        call_ensures(ArctisProtocol::send_eq_bands, (&p, levels), r),
        0 <= i < levels@.len(),
    ensures
        r@.len() == levels@.len() + 2,
        r@[0] == 0x06 && r@[1] == 0x33,
        levels@[i] >= 10000 ==> r@[2 + i] == 40,
        levels@[i] <= -10000 ==> r@[2 + i] == 0,
        -10000 <= levels@[i] <= 10000 ==> -250 <= (r@[2 + i] - 20) * 500 - levels@[i] <= 250,
{
}

/// A raw band byte stands for half a decibel per step above twenty.
pub proof fn bands_are_half_decibels(raw: u8, r: i32)
    requires
        call_ensures(eq_raw_to_db, (raw,), r),
    ensures
        r == 500 * raw - 10000,
{
}

/// A level becomes the raw byte nearest to it; beyond what a byte can hold it becomes the
/// outermost. A higher level never becomes a lower byte.
pub proof fn levels_become_the_nearest_byte(a: i32, b: i32, ra: u8, rb: u8)
    requires
        call_ensures(eq_db_to_raw, (a,), ra),
        call_ensures(eq_db_to_raw, (b,), rb),
        a <= b,
    ensures
        ra <= rb,
        -10000 <= a <= 117500 ==> -250 <= 500 * ra - 10000 - a <= 250,
        a < -10000 ==> ra == 0,
        a > 117500 ==> ra == 255,
{
}

/// A ChatMix notification gives the volume of the game first and that of the chat second;
/// nothing else is one.
pub proof fn chatmix_gives_game_then_chat(data: &[u8], r: Option<ArctisChatMixFields>)
    requires
        call_ensures(parse_chatmix, (data, false), r),
    ensures
        r is Some <==> data@.len() >= 4 && data@[0] == 0x07 && data@[1] == 0x45,
        r is Some ==> r->Some_0.game == data@[2] && r->Some_0.chat == data@[3],
{
}

/// Volume notifications are told apart by their number and give their byte as it is.
pub proof fn volumes_are_notified_by_number(data: &[u8], mic: Option<u8>, station: Option<u8>)
    requires
        call_ensures(parse_mic_volume, (data, false), mic),
        call_ensures(parse_station_volume, (data, false), station),
    ensures
        mic is Some <==> data@.len() >= 3 && data@[0] == 0x07 && data@[1] == 0x37,
        station is Some <==> data@.len() >= 3 && data@[0] == 0x07 && data@[1] == 0x25,
        mic is Some ==> mic->Some_0 == data@[2],
        station is Some ==> station->Some_0 == data@[2],
{
}

/// A status reply gives every field from its own byte. Battery levels come in eighths and
/// are shown in percent, rounded down; selections are limited to their options.
pub proof fn status_replies_give_their_bytes(data: &[u8], r: Option<ArctisStatusFields>)
    requires
        call_ensures(parse_status, (data, false), r),
    ensures
        r is Some <==> data@.len() >= 16 && data@[0] == 0x06 && data@[1] == 0xb0,
        r matches Some(f) ==> {
            let d = data@;
            &&& d[6] <= 8 ==> 8 * f.headset_battery <= 100 * d[6] < 8 * f.headset_battery + 8
            &&& d[6] >= 8 ==> f.headset_battery == 100
            &&& d[7] <= 8 ==> 8 * f.slot_battery <= 100 * d[7] < 8 * f.slot_battery + 8
            &&& d[7] >= 8 ==> f.slot_battery == 100
            &&& f.power_status == d[15]
            &&& f.mic_muted <==> d[9] != 0
            &&& f.nc_level <= 10 && (d[8] <= 10 ==> f.nc_level == d[8])
            &&& f.nc_mode <= 2 && (d[10] <= 2 ==> f.nc_mode == d[10])
            &&& f.mic_led_brightness <= 100 && (d[11] <= 10 ==> f.mic_led_brightness == 10 * d[11])
            &&& f.auto_off_raw <= 6 && (d[12] <= 6 ==> f.auto_off_raw == d[12])
            &&& f.wireless_mode <= 1 && (d[13] <= 1 ==> f.wireless_mode == d[13])
            &&& d[8] > 10 ==> f.nc_level == 10
            &&& d[10] > 2 ==> f.nc_mode == 2
            &&& d[11] > 10 ==> f.mic_led_brightness == 100
            &&& d[12] > 6 ==> f.auto_off_raw == 6
            &&& d[13] > 1 ==> f.wireless_mode == 1
            &&& f.bt_powerup_state == d[2]
            &&& f.bt_auto_mute == d[3]
            &&& f.bt_power_status == d[4]
            &&& f.bt_connection == d[5]
            &&& f.bt_wireless_pairing == d[14]
        },
{
}

/// A settings reply gives every field from its own byte: the gain is high where it is two,
/// and the bands are those that writing the same bytes would send.
pub proof fn settings_replies_give_their_bytes(
    data: &[u8],
    r: Option<ArctisSettingsFields>,
    i: int,
)
    requires
        call_ensures(parse_settings, (data, false), r),
        0 <= i < 10,
    ensures
        r is Some <==> data@.len() >= 19 && data@[0] == 0x06 && data@[1] == 0x20,
        r matches Some(f) ==> {
            let d = data@;
            &&& f.gain == if d[4] == 2 {
                1u8
            } else {
                0u8
            }
            &&& f.eq_preset == d[6]
            &&& f.sidetone <= 3 && (d[18] <= 3 ==> f.sidetone == d[18]) && (d[18] > 3 ==> f.sidetone
                == 3)
            &&& f.eq_bands@.len() == 10
            &&& f.eq_bands@[i] == 500 * d[7 + i] - 10000
        },
{
}

/// Where the system puts a zero byte in front of reports, a report is read as without it,
/// and one that has none is read as it is.
pub proof fn leading_zeros_do_not_count(
    data: &[u8],
    bare: &[u8],
    a: Option<ArctisStatusFields>,
    b: Option<ArctisStatusFields>,
    c: Option<ArctisStatusFields>,
)
    requires
        bare@.len() > 0,
        bare@[0] != 0,
        data@ == seq![0u8] + bare@,
        call_ensures(parse_status, (data, true), a),
        call_ensures(parse_status, (bare, false), b),
        call_ensures(parse_status, (bare, true), c),
    ensures
        a == b,
        c == b,
        stripped(data@, true) == bare@,
        stripped(bare@, true) == bare@,
        stripped(data@, false) == data@,
{
    assert(data@.subrange(1, data@.len() as int) =~= bare@);
}

/// Of several reports of a kind the last one counts; reports of other kinds do not touch it.
pub proof fn the_last_report_counts(
    ps: Seq<Seq<u8>>,
    p: Seq<u8>,
    before: ArctisPoll,
    after: ArctisPoll,
)
    requires
        p.len() > 0,
        before.is_outcome(ps, false),
        after.is_outcome(ps.push(p), false),
    ensures
        p.len() >= 16 && p[0] == 0x06 && p[1] == 0xb0 ==> after.status is Some
            && after.status->Some_0.power_status == p[15],
        !(p.len() >= 2 && p[0] == 0x06 && p[1] == 0xb0) ==> after.status == before.status,
        p.len() >= 19 && p[0] == 0x06 && p[1] == 0x20 ==> after.settings is Some
            && after.settings->Some_0.eq_preset == p[6],
        p.len() >= 3 && p[0] == 0x07 && p[1] == 0x37 ==> after.mic_volume_raw == Some(p[2]),
        !(p.len() >= 3 && p[0] == 0x07 && p[1] == 0x37) ==> after.mic_volume_raw
            == before.mic_volume_raw,
        p.len() >= 3 && p[0] == 0x07 && p[1] == 0x25 ==> after.station_volume_raw == Some(p[2]),
        !(p.len() >= 3 && p[0] == 0x07 && p[1] == 0x25) ==> after.station_volume_raw
            == before.station_volume_raw,
        p.len() >= 4 && p[0] == 0x07 && p[1] == 0x45 ==> after.chatmix@ == before.chatmix@.push(
            ArctisChatMixFields { game: p[2], chat: p[3] },
        ),
        !(p.len() >= 4 && p[0] == 0x07 && p[1] == 0x45) ==> after.chatmix@ == before.chatmix@,
{
    assert(ps.push(p).drop_last() =~= ps);
}

/// A polling pass looks at the packets from the first on, up to an empty one and at most 32;
/// it stops nowhere else.
pub proof fn polls_drain_in_order(packets: Seq<Vec<u8>>, i: int)
    ensures
        0 <= i < drained(packets).len() ==> i < packets.len() && drained(packets)[i] == packets[i]@
            && packets[i]@.len() > 0,
        ({
            let n = drained(packets).len() as int;
            n == packets.len() || n == 32 || (n < packets.len() && packets[n]@.len() == 0)
        }),
{
    lemma_drained(packets, 0, i);
}

/// The packets that a pass looks at from position `from` on.
proof fn lemma_drained(packets: Seq<Vec<u8>>, from: nat, i: int)
    requires
        from <= MAX_POLL_READS,
        from <= packets.len(),
    ensures
        0 <= i < drained_from(packets, from).len() ==> from + i < packets.len() && drained_from(
            packets,
            from,
        )[i] == packets[from + i]@ && packets[from + i]@.len() > 0,
        ({
            let n = (from + drained_from(packets, from).len()) as int;
            n == packets.len() || n == MAX_POLL_READS || (n < packets.len() && packets[n]@.len()
                == 0)
        }),
    decreases packets.len() - from,
{
    if from < packets.len() && from < MAX_POLL_READS && packets[from as int]@.len() > 0 {
        lemma_drained(packets, from + 1, i - 1);
    }
}

} // verus!
