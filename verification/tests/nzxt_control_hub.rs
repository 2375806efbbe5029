//! The fan hub's reports and commands.

use halod_drivers::nzxt::protocols::nzxt_control_hub::{
    HubError, NzxtControlHubProtocol, FAN_CHANNELS,
};
use halod_drivers::rgb::RgbColor;

#[test]
fn parse_fan_status_speed_returns_correct_rpm_and_duty() {
    let mut pkt = vec![0u8; 45];
    pkt[0] = 0x67;
    pkt[1] = 0x02;
    pkt[24] = 0xD2;
    pkt[25] = 0x04;
    pkt[26] = 0xC4;
    pkt[27] = 0x09;
    pkt[28] = 0x00;
    pkt[29] = 0x00;
    pkt[30] = 0x8A;
    pkt[31] = 0x02;
    pkt[32] = 0x08;
    pkt[33] = 0x07;
    pkt[40] = 50;
    pkt[41] = 100;
    pkt[42] = 0;
    pkt[43] = 30;
    pkt[44] = 75;

    let result = NzxtControlHubProtocol::parse_fan_status_speed(&pkt);
    assert!(result.is_some());
    let channels = result.unwrap();
    assert_eq!(channels[0], (1234, 50));
    assert_eq!(channels[1], (2500, 100));
    assert_eq!(channels[2], (0, 0));
    assert_eq!(channels[3], (650, 30));
    assert_eq!(channels[4], (1800, 75));
}

#[test]
fn nzxt_control_hub_parse_fan_status_speed_rejects_short_packet() {
    assert!(
        NzxtControlHubProtocol::parse_fan_status_speed(&[0u8; 44]).is_none()
    );
    assert!(
        NzxtControlHubProtocol::parse_fan_status_speed(&[0u8; 4]).is_none()
    );
}

#[test]
fn parse_fan_status_speed_rejects_wrong_prefix() {
    let mut pkt = vec![0u8; 45];
    pkt[0] = 0x67;
    pkt[1] = 0x01;
    assert!(NzxtControlHubProtocol::parse_fan_status_speed(&pkt).is_none());
    let mut pkt2 = vec![0u8; 45];
    pkt2[0] = 0x75;
    pkt2[1] = 0x02;
    assert!(NzxtControlHubProtocol::parse_fan_status_speed(&pkt2).is_none());
}

#[test]
fn parse_fan_config_returns_correct_fan_types() {
    let mut pkt = vec![0u8; 21];
    pkt[0] = 0x61;
    pkt[1] = 0x03;
    pkt[16] = 2;
    pkt[17] = 2;
    pkt[18] = 1;
    pkt[19] = 0;
    pkt[20] = 2;
    let result = NzxtControlHubProtocol::parse_fan_config(&pkt);
    assert!(result.is_some());
    assert_eq!(result.unwrap(), [2, 2, 1, 0, 2]);
}

#[test]
fn nzxt_control_hub_parse_fan_config_rejects_short_packet() {
    assert!(NzxtControlHubProtocol::parse_fan_config(&[0u8; 20]).is_none());
}

#[test]
fn parse_fan_config_rejects_wrong_prefix() {
    let mut pkt = vec![0u8; 21];
    pkt[0] = 0x61;
    pkt[1] = 0x01;
    assert!(NzxtControlHubProtocol::parse_fan_config(&pkt).is_none());
    let mut pkt2 = vec![0u8; 21];
    pkt2[0] = 0x67;
    pkt2[1] = 0x03;
    assert!(NzxtControlHubProtocol::parse_fan_config(&pkt2).is_none());
}

#[test]
fn write_fan_duty_sends_correct_11_byte_packet() {
    let written = [NzxtControlHubProtocol::write_fan_duty(0, 50).unwrap()];
    assert_eq!(written.len(), 1);
    assert_eq!(written[0], [0x62, 0x01, 0x01, 50, 0, 0, 0, 0, 0, 0, 0]);
}

#[test]
fn write_fan_duty_sets_correct_bitmask_for_channel_2() {
    let written = [NzxtControlHubProtocol::write_fan_duty(2, 75).unwrap()];
    assert_eq!(written[0], [0x62, 0x01, 0x04, 0, 0, 75, 0, 0, 0, 0, 0]);
}

#[test]
fn write_fan_duty_rejects_channel_out_of_range() {
    assert!(NzxtControlHubProtocol::write_fan_duty(5, 50).is_err());
}

#[test]
fn write_fan_duty_updates_cache() {
    let mut p = NzxtControlHubProtocol::new();
    NzxtControlHubProtocol::write_fan_duty(1, 60).unwrap();
    p.fan_duty_written(1, 60);
    assert_eq!(p.read_fan_duty(1), 60);
}

#[test]
fn interval_control_byte_250ms_or_less_is_zero() {
    assert_eq!(
        NzxtControlHubProtocol::interval_control_byte(0),
        0
    );
    assert_eq!(
        NzxtControlHubProtocol::interval_control_byte(250),
        0
    );
}

#[test]
fn interval_control_byte_488ms_is_1() {
    assert_eq!(
        NzxtControlHubProtocol::interval_control_byte(488),
        1
    );
}

#[test]
fn interval_control_byte_744ms_is_2() {
    assert_eq!(
        NzxtControlHubProtocol::interval_control_byte(744),
        2
    );
}

#[test]
fn interval_control_byte_large_value_saturates() {
    assert_eq!(
        NzxtControlHubProtocol::interval_control_byte(u32::MAX),
        255
    );
}

#[test]
fn interval_control_byte_251ms_produces_expected_value() {
    assert_eq!(
        NzxtControlHubProtocol::interval_control_byte(251),
        1
    );
}

#[test]
fn parse_fan_status_speed_returns_values() {
    let mut pkt = vec![0u8; 48];
    pkt[0] = 0x67;
    pkt[1] = 0x02;
    pkt[24] = 0xB0;
    pkt[25] = 0x04;
    pkt[40] = 50;
    pkt[26] = 0x20;
    pkt[27] = 0x03;
    pkt[41] = 30;
    let result = NzxtControlHubProtocol::parse_fan_status_speed(&pkt).unwrap();
    assert_eq!(result[0], (1200, 50));
    assert_eq!(result[1], (800, 30));
    assert_eq!(result[2], (0, 0));
}

#[test]
fn parse_fan_status_speed_rejects_wrong_report_id() {
    let mut pkt = vec![0u8; 48];
    pkt[0] = 0x61;
    pkt[1] = 0x02;
    assert!(NzxtControlHubProtocol::parse_fan_status_speed(&pkt).is_none());
}

#[test]
fn parse_fan_status_speed_rejects_wrong_type() {
    let mut pkt = vec![0u8; 48];
    pkt[0] = 0x67;
    pkt[1] = 0x04;
    assert!(NzxtControlHubProtocol::parse_fan_status_speed(&pkt).is_none());
}

#[test]
fn control_hub_parse_fan_status_speed_rejects_short_packet() {
    let pkt = vec![0x67, 0x02];
    assert!(NzxtControlHubProtocol::parse_fan_status_speed(&pkt).is_none());
}

#[test]
fn parse_fan_config_returns_fan_types() {
    let mut pkt = vec![0u8; 16 + FAN_CHANNELS];
    pkt[0] = 0x61;
    pkt[1] = 0x03;
    pkt[16] = 2;
    pkt[17] = 1;
    pkt[18] = 0;
    pkt[19] = 2;
    pkt[20] = 1;
    let result = NzxtControlHubProtocol::parse_fan_config(&pkt).unwrap();
    assert_eq!(result[0], 2);
    assert_eq!(result[1], 1);
    assert_eq!(result[2], 0);
    assert_eq!(result[3], 2);
    assert_eq!(result[4], 1);
}

#[test]
fn control_hub_parse_fan_config_rejects_short_packet() {
    let pkt = vec![0x61u8, 0x03, 0x00];
    assert!(NzxtControlHubProtocol::parse_fan_config(&pkt).is_none());
}

#[test]
fn fan_cache_returns_zero_before_update() {
    let p = NzxtControlHubProtocol::new();
    assert_eq!(p.read_fan_rpm(0), 0);
    assert_eq!(p.read_fan_duty(0), 0);
}

#[test]
fn fan_cache_updated_by_handle_packet() {
    let mut p = NzxtControlHubProtocol::new();
    let mut pkt = vec![0u8; 48];
    pkt[0] = 0x67;
    pkt[1] = 0x02;
    pkt[24] = 0xB0;
    pkt[25] = 0x04;
    pkt[40] = 75;
    p.handle_packet(&pkt);
    assert_eq!(p.read_fan_rpm(0), 1200);
    assert_eq!(p.read_fan_duty(0), 75);
}

#[test]
fn fan_type_from_status_packet_makes_channel_controllable() {
    let mut p = NzxtControlHubProtocol::new();
    let mut pkt = vec![0u8; 48];
    pkt[0] = 0x67;
    pkt[1] = 0x02;
    pkt[16] = 2;
    pkt[17] = 1;
    pkt[18] = 0;
    p.handle_packet(&pkt);
    assert!(
        p.read_fan_controllable(0),
        "PWM fan must be controllable"
    );
    assert!(
        p.read_fan_controllable(1),
        "DC fan must be controllable"
    );
    assert!(
        !p.read_fan_controllable(2),
        "absent fan must not be controllable"
    );
}

#[test]
fn fan_controllable_false_before_any_packet() {
    let p = NzxtControlHubProtocol::new();
    assert!(!p.read_fan_controllable(0));
}

#[test]
fn set_fan_duty_sends_correct_bytes() {
    let written = [NzxtControlHubProtocol::write_fan_duty(1, 75).unwrap()];
    assert_eq!(written.len(), 1);
    let pkt = &written[0];
    assert_eq!(pkt[0], 0x62);
    assert_eq!(pkt[1], 0x01);
    assert_eq!(pkt[2], 0b0000_0010);
    assert_eq!(pkt[3], 0);
    assert_eq!(pkt[4], 75);
    assert_eq!(pkt[5], 0);
}

#[test]
fn set_fan_duty_updates_cache_optimistically() {
    let mut p = NzxtControlHubProtocol::new();
    NzxtControlHubProtocol::write_fan_duty(0, 60).unwrap();
    p.fan_duty_written(0, 60);
    assert_eq!(p.read_fan_duty(0), 60);
}

#[test]
fn set_fan_duty_out_of_range_returns_error() {
    assert!(NzxtControlHubProtocol::write_fan_duty(FAN_CHANNELS as u8, 50).is_err());
}

#[test]
fn slower_intervals_have_higher_bytes() {
    for ms in (0u32..70_000).step_by(97) {
        assert!(
            NzxtControlHubProtocol::interval_control_byte(ms)
                <= NzxtControlHubProtocol::interval_control_byte(ms + 97)
        );
    }
}

#[test]
fn a_frame_is_data_and_commit() {
    let red = RgbColor { r: 9, g: 1, b: 2 };
    let (data, commit) = NzxtControlHubProtocol::write_rgb_frame(1, &[red]).unwrap();
    assert_eq!(&data[..2], &[0x26, 0x04]);
    assert_eq!(data[2], 0b10);
    assert_eq!(&data[4..7], &[1, 9, 2]);
    assert_eq!(&commit[..3], &[0x26, 0x06, 0b10]);
    assert_eq!(
        NzxtControlHubProtocol::write_rgb_frame(8, &[red]).unwrap_err(),
        HubError::ChannelOutOfRange { channel: 8 }
    );
}

#[test]
fn a_config_report_sets_the_fan_types() {
    let mut p = NzxtControlHubProtocol::new();
    let mut pkt = vec![0u8; 21];
    pkt[0] = 0x61;
    pkt[1] = 0x03;
    pkt[19] = 2;
    p.handle_packet(&pkt);
    assert!(p.read_fan_controllable(3));
    assert!(!p.read_fan_controllable(0));
    assert_eq!(NzxtControlHubProtocol::detect_fans(), [0x60, 0x03]);
}
