//! Reports and commands of the Arctis base station.

use halod_drivers::steelseries::protocols::steelseries_arctis::{
    eq_db_to_raw, eq_raw_to_db, parse_chatmix, parse_mic_volume, parse_settings,
    parse_station_volume, parse_status, strip_report_id, ArctisPoll, ArctisProtocol, Msg,
    MAX_POLL_READS, POWER_ONLINE, REPORT_CMD, REPORT_NOTIFY,
};

/// Reports come with a zero byte in front of them.
const HIDRAW: bool = true;

/// A level in thousandths of a decibel.
fn thousandths(db: f32) -> i32 {
    (db * 1000.0).round() as i32
}

/// A level in decibels.
fn decibels(level: i32) -> f32 {
    level as f32 / 1000.0
}

fn status_packet(mic_muted: bool) -> Vec<u8> {
    let mut p = vec![0u8; 64];
    p[0] = REPORT_CMD;
    p[1] = Msg::Status.id();
    p[0x09] = mic_muted as u8;
    p[0x0F] = POWER_ONLINE;
    p
}

fn settings_packet(sidetone: u8) -> Vec<u8> {
    let mut p = vec![0u8; 64];
    p[0] = REPORT_CMD;
    p[1] = Msg::Settings.id();
    p[0x12] = sidetone;
    p
}

fn chatmix_packet(game: u8, chat: u8) -> Vec<u8> {
    vec![REPORT_NOTIFY, Msg::ChatMix.id(), game, chat]
}

#[test]
fn eq_band_encoding_roundtrip() {
    for db in [-10.0f32, -5.0, 0.0, 3.5, 10.0] {
        let raw = eq_db_to_raw(thousandths(db));
        let back = decibels(eq_raw_to_db(raw));
        assert!(
            (back - db).abs() < 0.01,
            "roundtrip failed for {db} dB → raw {raw} → {back}"
        );
    }
}

#[test]
fn eq_baseline_is_zero_db() {
    assert_eq!(decibels(eq_raw_to_db(0x14)), 0.0);
}

#[test]
fn parse_mic_volume_reads_level() {
    assert_eq!(
        parse_mic_volume(&[REPORT_NOTIFY, Msg::MicVolume.id(), 0x06], HIDRAW),
        Some(6)
    );
    assert_eq!(
        parse_mic_volume(&[REPORT_NOTIFY, Msg::ChatMix.id(), 0x06], HIDRAW),
        None
    );
}

#[test]
fn parse_station_volume_reads_level() {
    assert_eq!(
        parse_station_volume(&[REPORT_NOTIFY, Msg::StationVolume.id(), 0x64], HIDRAW),
        Some(100)
    );
    assert_eq!(
        parse_station_volume(&[REPORT_NOTIFY, Msg::MicVolume.id(), 0x64], HIDRAW),
        None
    );
    assert_eq!(
        parse_station_volume(&[REPORT_CMD, Msg::StationVolume.id(), 0x64], HIDRAW),
        None
    );
}

#[test]
fn parse_status_extracts_fields() {
    let mut data = vec![0u8; 64];
    data[0] = REPORT_CMD;
    data[1] = Msg::Status.id();
    data[0x06] = 6;
    data[0x07] = 4;
    data[0x08] = 7;
    data[0x09] = 1;
    data[0x0A] = 2;
    data[0x0B] = 5;
    data[0x0C] = 3;
    data[0x0D] = 1;
    data[0x0F] = POWER_ONLINE;

    let f = parse_status(&data, HIDRAW).expect("should parse");
    assert_eq!(f.headset_battery, 75);
    assert_eq!(f.slot_battery, 50);
    assert_eq!(f.nc_level, 7);
    assert!(f.mic_muted);
    assert_eq!(f.nc_mode, 2);
    assert_eq!(f.mic_led_brightness, 50);
    assert_eq!(f.auto_off_raw, 3);
    assert_eq!(f.wireless_mode, 1);
    assert_eq!(f.power_status, POWER_ONLINE);
}

#[test]
fn parse_status_extracts_bluetooth_block() {
    let mut data = vec![0u8; 64];
    data[0] = REPORT_CMD;
    data[1] = Msg::Status.id();
    data[0x02] = 1;
    data[0x03] = 2;
    data[0x04] = 8;
    data[0x05] = 1;
    data[0x0E] = 3;

    let f = parse_status(&data, HIDRAW).expect("should parse");
    assert_eq!(f.bt_powerup_state, 1);
    assert_eq!(f.bt_auto_mute, 2);
    assert_eq!(f.bt_power_status, 8);
    assert_eq!(f.bt_connection, 1);
    assert_eq!(f.bt_wireless_pairing, 3);
}

#[test]
fn parse_status_returns_none_on_bad_prefix() {
    let data = vec![0x00u8; 65];
    assert!(parse_status(&data, HIDRAW).is_none());
}

#[test]
fn parse_settings_extracts_fields() {
    let mut data = vec![0u8; 60];
    data[0] = REPORT_CMD;
    data[1] = Msg::Settings.id();
    data[0x04] = 0x02;
    data[0x06] = 2;
    data[0x12] = 3;
    data[0x07] = 0x28;
    data[0x10] = 0x00;

    let f = parse_settings(&data, HIDRAW).expect("should parse");
    assert_eq!(f.gain, 1);
    assert_eq!(f.eq_preset, 2);
    assert_eq!(f.sidetone, 3);
    assert_eq!(decibels(f.eq_bands[0]), 10.0);
    assert_eq!(decibels(f.eq_bands[9]), -10.0);
}

#[test]
fn parse_settings_keeps_raw_game_preset_byte() {
    let mut data = vec![0u8; 60];
    data[0] = REPORT_CMD;
    data[1] = Msg::Settings.id();
    data[0x06] = 0x10;
    let f = parse_settings(&data, HIDRAW).expect("should parse");
    assert_eq!(f.eq_preset, 0x10);
}

#[test]
fn parse_settings_decodes_real_capture() {
    let bytes: [u8; 25] = [
        0x06, 0x20, 0x00, 0x04, 0x02, 0x00, 0x04, 0x14, 0x14, 0x14, 0x14, 0x14, 0x22, 0x05,
        0x05, 0x16, 0x28, 0x0a, 0x03, 0x01, 0x4b, 0x64, 0x64, 0x00, 0x64,
    ];
    let mut data = vec![0u8; 64];
    data[..bytes.len()].copy_from_slice(&bytes);
    let f = parse_settings(&data, HIDRAW).expect("should parse");
    assert_eq!(f.gain, 1);
    assert_eq!(f.eq_preset, 4);
    assert_eq!(f.sidetone, 3);
    assert_eq!(decibels(f.eq_bands[5]), 7.0);
    assert_eq!(decibels(f.eq_bands[9]), 10.0);
}

#[test]
fn parse_chatmix_extracts_game_chat() {
    let data = [REPORT_NOTIFY, Msg::ChatMix.id(), 80, 60];
    let f = parse_chatmix(&data, HIDRAW).expect("should parse");
    assert_eq!(f.game, 80);
    assert_eq!(f.chat, 60);
}

#[test]
fn parse_chatmix_with_report_id() {
    let data = [0x00u8, REPORT_NOTIFY, Msg::ChatMix.id(), 75, 50];
    let f = parse_chatmix(&data, HIDRAW).expect("should parse with stripped report ID");
    assert_eq!(f.game, 75);
    assert_eq!(f.chat, 50);
}

#[test]
fn parse_status_with_report_id() {
    let mut data = vec![0u8; 65];
    data[0] = 0x00;
    data[1] = REPORT_CMD;
    data[2] = Msg::Status.id();
    data[0x07] = 6;
    data[0x08] = 4;
    data[0x0A] = 1;
    let f = parse_status(&data, HIDRAW).expect("should parse with stripped report ID");
    assert_eq!(f.headset_battery, 75);
    assert_eq!(f.slot_battery, 50);
    assert!(f.mic_muted);
}

#[test]
fn parse_settings_with_report_id() {
    let mut data = vec![0u8; 65];
    data[0] = 0x00;
    data[1] = REPORT_CMD;
    data[2] = Msg::Settings.id();
    data[0x05] = 0x02;
    data[0x07] = 2;
    data[0x13] = 3;
    let f = parse_settings(&data, HIDRAW).expect("should parse with stripped report ID");
    assert_eq!(f.gain, 1);
    assert_eq!(f.eq_preset, 2);
    assert_eq!(f.sidetone, 3);
}

#[test]
fn poll_parses_station_volume_notification() {
    let proto = ArctisProtocol::new();
    let out = proto.poll(&vec![
        status_packet(false),
        vec![REPORT_NOTIFY, Msg::StationVolume.id(), 0x32],
    ], HIDRAW);
    assert_eq!(out.station_volume_raw, Some(0x32));
}

#[test]
fn poll_parses_status_settings_and_chatmix() {
    let proto = ArctisProtocol::new();
    let out = proto.poll(&vec![
        status_packet(true),
        settings_packet(2),
        chatmix_packet(80, 60),
    ], HIDRAW);
    assert!(out.status.is_some_and(|s| s.mic_muted));
    assert!(out.settings.is_some_and(|s| s.sidetone == 2));
    assert_eq!(out.chatmix.len(), 1);
    assert_eq!(out.chatmix[0].game, 80);
    assert_eq!(out.chatmix[0].chat, 60);
}

#[test]
fn poll_prompts_device_for_status_and_settings() {
    let proto = ArctisProtocol::new();
    let written = proto.poll_requests();
    assert!(written
        .iter()
        .any(|w| w.starts_with(&[REPORT_CMD, Msg::Status.id()])));
    assert!(written
        .iter()
        .any(|w| w.starts_with(&[REPORT_CMD, Msg::Settings.id()])));
}

#[test]
fn poll_finds_status_buried_behind_many_chatmix_packets() {
    let mut packets: Vec<Vec<u8>> = (0..20).map(|_| chatmix_packet(50, 50)).collect();
    packets.push(status_packet(false));
    let proto = ArctisProtocol::new();
    let out = proto.poll(&packets, HIDRAW);
    assert!(
        out.status.is_some_and(|s| !s.mic_muted),
        "status buried behind 20 chatmix packets must still be parsed"
    );
    assert_eq!(out.chatmix.len(), 20);
}

#[test]
fn poll_keeps_latest_status_when_multiple_arrive() {
    let proto = ArctisProtocol::new();
    let out = proto.poll(&vec![
        status_packet(true),
        status_packet(false),
    ], HIDRAW);
    assert!(
        out.status.is_some_and(|s| !s.mic_muted),
        "the last status packet in the stream wins"
    );
}

#[test]
fn poll_returns_none_when_no_status_or_settings() {
    let proto = ArctisProtocol::new();
    let out = proto.poll(&vec![
        chatmix_packet(10, 90),
        chatmix_packet(20, 80),
    ], HIDRAW);
    assert!(out.status.is_none());
    assert!(out.settings.is_none());
    assert_eq!(out.chatmix.len(), 2);
}

#[test]
fn poll_stops_draining_at_max_reads() {
    let packets: Vec<Vec<u8>> = (0..MAX_POLL_READS * 4)
        .map(|_| chatmix_packet(1, 1))
        .collect();
    let proto = ArctisProtocol::new();
    let out = proto.poll(&packets, HIDRAW);
    assert_eq!(out.chatmix.len(), MAX_POLL_READS);
}

#[test]
fn eq_roundtrip_raw() {
    for raw in 0u8..=0x28 {
        assert_eq!(eq_db_to_raw(eq_raw_to_db(raw)), raw);
    }
}

#[test]
fn levels_round_to_half_decibels() {
    assert_eq!(eq_db_to_raw(3_500), 27);
    assert_eq!(eq_db_to_raw(3_749), 27);
    assert_eq!(eq_db_to_raw(3_750), 28);
    assert_eq!(eq_db_to_raw(-3_750), 12);
    assert_eq!(eq_db_to_raw(i32::MIN), 0);
    assert_eq!(eq_db_to_raw(i32::MAX), 40);
}

#[test]
fn commands_carry_limited_values() {
    let p = ArctisProtocol::new();
    assert_eq!(p.activate_chatmix_display(), vec![REPORT_CMD, 0x49, 1]);
    assert_eq!(p.persist(), vec![REPORT_CMD, 0x09]);
    assert_eq!(p.send_nc_mode(9), vec![REPORT_CMD, 0xbd, 2]);
    assert_eq!(p.send_sidetone(9), vec![REPORT_CMD, 0x39, 3]);
    assert_eq!(p.send_wireless_mode(9), vec![REPORT_CMD, 0xc3, 1]);
    assert_eq!(p.send_auto_off(9), vec![REPORT_CMD, 0xc1, 6]);
    assert_eq!(p.send_nc_level(99), vec![REPORT_CMD, 0xb9, 10]);
    assert_eq!(p.send_mic_volume(0), vec![REPORT_CMD, 0x37, 1]);
    assert_eq!(p.send_mic_volume(11), vec![REPORT_CMD, 0x37, 10]);
    assert_eq!(p.send_mic_gain(true), vec![REPORT_CMD, 0x27, 2]);
    assert_eq!(p.send_sonar_eq(true), vec![REPORT_CMD, 0x8d, 1]);
    assert_eq!(p.send_screen_mode(false), vec![REPORT_CMD, 0x89, 0]);
    assert_eq!(p.send_mic_led_brightness(55), vec![REPORT_CMD, 0xbf, 5]);
    assert_eq!(p.send_eq_preset(0x0c), vec![REPORT_CMD, 0x2e, 0x0c]);
    assert_eq!(
        p.send_eq_bands(&[0, 20_000, -20_000, 3_500]),
        vec![REPORT_CMD, 0x33, 20, 40, 0, 27]
    );
}

#[test]
fn draining_stops_at_an_empty_read() {
    let proto = ArctisProtocol::new();
    let out = proto.poll(&[chatmix_packet(1, 2), Vec::new(), status_packet(true)], HIDRAW);
    assert!(out.status.is_none());
    assert_eq!(out.chatmix.len(), 1);
    let nothing: ArctisPoll = proto.poll(&[], HIDRAW);
    assert!(nothing.mic_volume_raw.is_none() && nothing.station_volume_raw.is_none());
    assert_eq!(strip_report_id(&[0, 7], HIDRAW), &[7]);
    assert_eq!(strip_report_id(&[7, 0], HIDRAW), &[7, 0]);
}

#[test]
fn a_zero_in_front_counts_where_nothing_puts_it_there() {
    let data = [0x00u8, REPORT_NOTIFY, Msg::MicVolume.id(), 0x05];
    assert_eq!(parse_mic_volume(&data, HIDRAW), Some(5));
    assert_eq!(parse_mic_volume(&data, false), None);
    assert_eq!(parse_mic_volume(&data[1..], false), Some(5));
    assert_eq!(strip_report_id(&[0, 7], false), &[0, 7]);
    let proto = ArctisProtocol::new();
    let out = proto.poll(&[data.to_vec()], false);
    assert_eq!(out.mic_volume_raw, None);
}
