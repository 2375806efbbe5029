//! The coolers' reports and commands.

use halod_drivers::nzxt::protocols::nzxt_kraken::{
    KrakenWire, NzxtKrakenProtocol, EXT_CHANNEL_BYTE, PROFILE_LEN, PUMP_DUTY_MIN, RING_BUF_LEN,
    RING_CHANNEL_BYTE, RING_LED_COUNT,
};
use halod_drivers::rgb::RgbColor;

#[test]
fn parse_status_returns_correct_fields() {
    let mut pkt = vec![0u8; 26];
    pkt[0] = 0x75;
    pkt[1] = 0x01;
    pkt[15] = 28;
    pkt[16] = 5;
    pkt[17] = 0xE8;
    pkt[18] = 0x03;
    pkt[19] = 50;
    pkt[23] = 0x58;
    pkt[24] = 0x02;
    pkt[25] = 40;
    let s = NzxtKrakenProtocol::parse_status(&pkt).unwrap();
    assert!((s.liquid_temp_tenths as f64 / 10.0 - 28.5).abs() < 1e-9);
    assert_eq!(s.pump_rpm, 1000);
    assert_eq!(s.pump_duty, 50);
    assert_eq!(s.fan_rpm, 600);
    assert_eq!(s.fan_duty, 40);
}

#[test]
fn parse_status_rejects_short_packet() {
    assert!(NzxtKrakenProtocol::parse_status(&[0x75, 0x01]).is_none());
}

#[test]
fn parse_status_accepts_subtype_02() {
    let mut pkt = vec![0u8; 26];
    pkt[0] = 0x75;
    pkt[1] = 0x02;
    pkt[15] = 29;
    pkt[16] = 5;
    assert!(NzxtKrakenProtocol::parse_status(&pkt).is_some());
}

#[test]
fn parse_status_rejects_wrong_prefix() {
    let mut pkt = vec![0u8; 26];
    pkt[0] = 0x67;
    pkt[1] = 0x01;
    assert!(NzxtKrakenProtocol::parse_status(&pkt).is_none());
}

#[test]
fn parse_status_rejects_unknown_subtype() {
    let mut pkt = vec![0u8; 26];
    pkt[0] = 0x75;
    pkt[1] = 0x03;
    assert!(NzxtKrakenProtocol::parse_status(&pkt).is_none());
}

#[test]
fn parse_status_ignores_0xff_temperature() {
    let mut pkt = vec![0u8; 26];
    pkt[0] = 0x75;
    pkt[1] = 0x01;
    pkt[15] = 0xFF;
    pkt[16] = 0xFF;
    assert!(NzxtKrakenProtocol::parse_status(&pkt).is_none());
}

#[test]
fn pump_profile_clamps_to_min_duty() {
    let p = NzxtKrakenProtocol::build_fixed_profile(10, PUMP_DUTY_MIN);
    assert!(p.iter().all(|&d| d == PUMP_DUTY_MIN));
}

#[test]
fn pump_profile_all_set_to_target_duty() {
    let p = NzxtKrakenProtocol::build_fixed_profile(60, PUMP_DUTY_MIN);
    assert!(p.iter().all(|&d| d == 60));
    assert_eq!(p.len(), PROFILE_LEN);
}

#[test]
fn build_ring_grb_maps_logical_led_to_sequential_slot() {
    let mut colors = [RgbColor { r: 0, g: 0, b: 0 }; RING_LED_COUNT];
    colors[0] = RgbColor {
        r: 10,
        g: 20,
        b: 30,
    };
    colors[RING_LED_COUNT - 1] = RgbColor {
        r: 40,
        g: 50,
        b: 60,
    };
    let buf = NzxtKrakenProtocol::build_ring_grb(&colors);
    assert_eq!(&buf[0..3], &[20, 10, 30]);
    let last = RING_LED_COUNT - 1;
    assert_eq!(&buf[last * 3..last * 3 + 3], &[50, 40, 60]);
}

#[test]
fn build_ring_grb_buf_length() {
    let colors = [RgbColor { r: 0, g: 0, b: 0 }; RING_LED_COUNT];
    assert_eq!(
        NzxtKrakenProtocol::build_ring_grb(&colors).len(),
        RING_BUF_LEN
    );
}

#[test]
fn x3_write_ring_sends_two_packets_plus_commit() {
    let mut written = Vec::new();
    let mut p = NzxtKrakenProtocol::new(KrakenWire::X3);
    let colors = [RgbColor {
        r: 10,
        g: 20,
        b: 30,
    }; 8];
    written.extend(p.write_ring_frame(&colors));
    assert_eq!(written.len(), 3);
    assert_eq!(&written[0][0..4], &[0x22, 0x10, 0x02, 0x00]);
    assert_eq!(written[0].len(), 64);
    assert_eq!(&written[0][4..7], &[20, 10, 30]);
    assert_eq!(&written[1][0..4], &[0x22, 0x11, 0x02, 0x00]);
    assert_eq!(&written[2][0..4], &[0x22, 0xA0, 0x02, 0x00]);
}

#[test]
fn x3_write_logo_sends_correct_packet() {
    let mut written = Vec::new();
    let p = NzxtKrakenProtocol::new(KrakenWire::X3);
    written.push(p.write_logo(RgbColor {
        r: 255,
        g: 0,
        b: 128,
    }));
    assert_eq!(written.len(), 1);
    let pkt = &written[0];
    assert_eq!(pkt.len(), 64);
    assert_eq!(&pkt[0..7], &[0x2A, 0x04, 0x04, 0x04, 0x00, 0x32, 0x00]);
    assert_eq!(pkt[7], 0);
    assert_eq!(pkt[8], 255);
    assert_eq!(pkt[9], 128);
    assert_eq!(&pkt[56..60], &[0x01, 0x00, 0x01, 0x03]);
}

#[test]
fn x3_write_ext_sends_two_packets_plus_commit() {
    let mut written = Vec::new();
    let mut p = NzxtKrakenProtocol::new(KrakenWire::X3);
    let colors = [RgbColor { r: 1, g: 2, b: 3 }; 4];
    written.extend(p.write_ext_frame(&colors));
    assert_eq!(written.len(), 3);
    assert_eq!(&written[0][0..4], &[0x22, 0x10, 0x01, 0x00]);
    assert_eq!(written[0].len(), 64);
    assert_eq!(&written[1][0..4], &[0x22, 0x11, 0x01, 0x00]);
    assert_eq!(&written[2][0..4], &[0x22, 0xA0, 0x01, 0x00]);
}

#[test]
fn ze_write_ring_sends_ring_packet_with_correct_header() {
    let mut written = Vec::new();
    let mut p = NzxtKrakenProtocol::new(KrakenWire::ZElite);
    let colors = [RgbColor { r: 0, g: 0, b: 0 }; RING_LED_COUNT];
    written.extend(p.write_ring_frame(&colors));
    assert_eq!(written.len(), 1);
    assert_eq!(
        &written[0][0..4],
        &[0x26, 0x14, RING_CHANNEL_BYTE, RING_CHANNEL_BYTE]
    );
}

#[test]
fn ze_write_ext_sends_both_when_ring_cached() {
    let mut written = Vec::new();
    let mut p = NzxtKrakenProtocol::new(KrakenWire::ZElite);
    written.extend(p.write_ring_frame(&[RgbColor { r: 1, g: 2, b: 3 }; RING_LED_COUNT]));
    written.extend(p.write_ext_frame(&[RgbColor { r: 4, g: 5, b: 6 }; 8]));
    assert_eq!(written.len(), 3);
    assert_eq!(
        &written[1][0..4],
        &[0x26, 0x14, RING_CHANNEL_BYTE, RING_CHANNEL_BYTE]
    );
    assert_eq!(
        &written[2][0..4],
        &[0x26, 0x14, EXT_CHANNEL_BYTE, EXT_CHANNEL_BYTE]
    );
}

#[test]
fn write_pump_duty_sends_correct_header() {
    let mut written = Vec::new();
    written.push(NzxtKrakenProtocol::write_pump_duty(60));
    let pkt = &written[0];
    assert_eq!(&pkt[0..4], &[0x72, 0x01, 0x00, 0x00]);
    assert_eq!(pkt.len(), 4 + PROFILE_LEN);
    assert!(pkt[4..].iter().all(|&d| d == 60));
}

#[test]
fn write_fan_duty_sends_correct_header() {
    let mut written = Vec::new();
    written.push(NzxtKrakenProtocol::write_fan_duty(45));
    assert_eq!(&written[0][0..4], &[0x72, 0x02, 0x01, 0x01]);
    assert!(written[0][4..].iter().all(|&d| d == 45));
}

#[test]
fn duties_are_remembered_once_written() {
    let mut p = NzxtKrakenProtocol::new(KrakenWire::ZElite);
    p.pump_duty_written(70);
    p.fan_duty_written(35);
    assert_eq!((p.status.pump_duty, p.status.fan_duty), (70, 35));
    let init = NzxtKrakenProtocol::initialize();
    assert_eq!(init[0][0], 0x70);
    assert!(NzxtKrakenProtocol::build_fixed_profile(255, 20).iter().all(|&d| d == 100));
}

#[test]
fn short_frames_leave_the_rest_dark() {
    let grb = NzxtKrakenProtocol::build_ring_grb(&[RgbColor { r: 1, g: 2, b: 3 }]);
    assert_eq!(&grb[..3], &[2, 1, 3]);
    assert!(grb[3..].iter().all(|&b| b == 0));
}
