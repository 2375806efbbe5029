//! The Evnia 49 monitor.

use halod_drivers::philips::devices::evnia_49::{
    choices_from_table, input_index_from_raw, language_index_from_raw, lookup_index,
    refresh_settings, smart_image_is_hdr_active, BooleanSetting, ChoiceSetting, ControlError,
    DeviceInfo, PhilipsEvnia49, RangeSetting, Setting, GAMMA_VALUES, SMART_IMAGE_MODES,
};
use halod_drivers::philips::protocols::philips_evnia::{
    build_extended_set, build_get_extended, build_get_info, build_get_standard, build_write,
    ddcci_xor, parse_get_reply, parse_info_reply,
};

#[test]
fn brightness_frame_uses_vcp_10() {
    let p = build_write(0x10, 75);
    assert_eq!(&p[..7], &[0x6e, 0x51, 0x84, 0x03, 0x10, 0x00, 75]);
    assert_eq!(p[7], ddcci_xor(&p[..7]));
}

#[test]
fn contrast_frame_matches_capture() {
    let p = build_write(0x12, 0x00);
    assert_eq!(p, [0x6e, 0x51, 0x84, 0x03, 0x12, 0x00, 0x00, 0xaa]);
}

#[test]
fn light_enhancement_frame_matches_capture() {
    let p = build_extended_set(0x3D, 3);
    assert_eq!(p, [0x6e, 0x51, 0x86, 0x03, 0xe2, 0xa0, 0x3d, 0x00, 0x03, 0xc6]);
}

#[test]
fn color_enhancement_frame_matches_capture() {
    let p = build_extended_set(0x3E, 3);
    assert_eq!(p, [0x6e, 0x51, 0x86, 0x03, 0xe2, 0xa0, 0x3e, 0x00, 0x03, 0xc5]);
}

#[test]
fn adaptive_sync_frame_matches_capture() {
    let p = build_extended_set(0x40, 1);
    assert_eq!(p, [0x6e, 0x51, 0x86, 0x03, 0xe2, 0xa0, 0x40, 0x00, 0x01, 0xb9]);
}

#[test]
fn low_input_lag_frame_matches_capture() {
    let p = build_extended_set(0x07, 1);
    assert_eq!(p, [0x6e, 0x51, 0x86, 0x03, 0xe2, 0xa0, 0x07, 0x00, 0x01, 0xfe]);
}

#[test]
fn audio_mute_frames_match_captures() {
    assert_eq!(build_write(0x8D, 1), [0x6e, 0x51, 0x84, 0x03, 0x8d, 0x00, 0x01, 0x34]);
    assert_eq!(build_write(0x8D, 2), [0x6e, 0x51, 0x84, 0x03, 0x8d, 0x00, 0x02, 0x37]);
}

#[test]
fn smart_response_frames_match_captures() {
    assert_eq!(build_write(0xEB, 0), [0x6e, 0x51, 0x84, 0x03, 0xeb, 0x00, 0x00, 0x53]);
    assert_eq!(build_write(0xEB, 1), [0x6e, 0x51, 0x84, 0x03, 0xeb, 0x00, 0x01, 0x52]);
    assert_eq!(build_write(0xEB, 2), [0x6e, 0x51, 0x84, 0x03, 0xeb, 0x00, 0x02, 0x51]);
    assert_eq!(build_write(0xEB, 3), [0x6e, 0x51, 0x84, 0x03, 0xeb, 0x00, 0x03, 0x50]);
}

#[test]
fn osd_position_frames_match_captures() {
    let h = build_extended_set(0x0E, 0);
    assert_eq!(h, [0x6e, 0x51, 0x86, 0x03, 0xe2, 0xa0, 0x0e, 0x00, 0x00, 0xf6]);
    let v = build_extended_set(0x0F, 0);
    assert_eq!(v, [0x6e, 0x51, 0x86, 0x03, 0xe2, 0xa0, 0x0f, 0x00, 0x00, 0xf7]);
}

#[test]
fn osd_transparency_frames_match_captures() {
    let t4 = build_extended_set(0x10, 4);
    assert_eq!(t4, [0x6e, 0x51, 0x86, 0x03, 0xe2, 0xa0, 0x10, 0x00, 0x04, 0xec]);
    let t0 = build_extended_set(0x10, 0);
    assert_eq!(t0, [0x6e, 0x51, 0x86, 0x03, 0xe2, 0xa0, 0x10, 0x00, 0x00, 0xe8]);
}

#[test]
fn osd_timeout_frame_matches_capture() {
    let p = build_extended_set(0x11, 2);
    assert_eq!(p, [0x6e, 0x51, 0x86, 0x03, 0xe2, 0xa0, 0x11, 0x00, 0x02, 0xeb]);
}

#[test]
fn usb_c_setting_frames_match_captures() {
    let p = build_extended_set(0x12, 1);
    assert_eq!(p, [0x6e, 0x51, 0x86, 0x03, 0xe2, 0xa0, 0x12, 0x00, 0x01, 0xeb]);
    let p = build_extended_set(0x12, 0);
    assert_eq!(p, [0x6e, 0x51, 0x86, 0x03, 0xe2, 0xa0, 0x12, 0x00, 0x00, 0xea]);
}

#[test]
fn usb_standby_frames_match_captures() {
    let p_off = build_extended_set(0x13, 0);
    assert_eq!(p_off, [0x6e, 0x51, 0x86, 0x03, 0xe2, 0xa0, 0x13, 0x00, 0x00, 0xeb]);
    let p_on = build_extended_set(0x13, 1);
    assert_eq!(p_on, [0x6e, 0x51, 0x86, 0x03, 0xe2, 0xa0, 0x13, 0x00, 0x01, 0xea]);
}

#[test]
fn kvm_usb_c_frame_matches_capture() {
    let p = build_extended_set(0x15, 2);
    assert_eq!(p, [0x6e, 0x51, 0x86, 0x03, 0xe2, 0xa0, 0x15, 0x00, 0x02, 0xef]);
}

#[test]
fn smart_power_frames_match_captures() {
    let off = build_extended_set(0x16, 0);
    assert_eq!(off, [0x6e, 0x51, 0x86, 0x03, 0xe2, 0xa0, 0x16, 0x00, 0x00, 0xee]);
    let on = build_extended_set(0x16, 1);
    assert_eq!(on, [0x6e, 0x51, 0x86, 0x03, 0xe2, 0xa0, 0x16, 0x00, 0x01, 0xef]);
}

#[test]
fn cec_frames_match_captures() {
    let off = build_extended_set(0x17, 0);
    assert_eq!(off, [0x6e, 0x51, 0x86, 0x03, 0xe2, 0xa0, 0x17, 0x00, 0x00, 0xef]);
    let on = build_extended_set(0x17, 1);
    assert_eq!(on, [0x6e, 0x51, 0x86, 0x03, 0xe2, 0xa0, 0x17, 0x00, 0x01, 0xee]);
}

#[test]
fn power_led_frames_match_captures() {
    let f0 = build_write(0xF2, 0);
    assert_eq!(f0, [0x6e, 0x51, 0x84, 0x03, 0xf2, 0x00, 0x00, 0x4a]);
    let f2 = build_write(0xF2, 2);
    assert_eq!(f2, [0x6e, 0x51, 0x84, 0x03, 0xf2, 0x00, 0x02, 0x48]);
    let f3 = build_write(0xF2, 3);
    assert_eq!(f3, [0x6e, 0x51, 0x84, 0x03, 0xf2, 0x00, 0x03, 0x49]);
    let f4 = build_write(0xF2, 4);
    assert_eq!(f4, [0x6e, 0x51, 0x84, 0x03, 0xf2, 0x00, 0x04, 0x4e]);
}

#[test]
fn resolution_notice_frames_match_captures() {
    let on = build_write(0xE9, 2);
    assert_eq!(on, [0x6e, 0x51, 0x84, 0x03, 0xe9, 0x00, 0x02, 0x53]);
    let off = build_write(0xE9, 0);
    assert_eq!(off, [0x6e, 0x51, 0x84, 0x03, 0xe9, 0x00, 0x00, 0x51]);
}

#[test]
fn get_brightness_request_matches_capture() {
    let p = build_get_standard(0x10);
    assert_eq!(p, [0x6e, 0x51, 0x82, 0x01, 0x10, 0xac]);
}

#[test]
fn get_extended_request_matches_capture() {
    let p = build_get_extended(0x3D);
    assert_eq!(p, [0x6e, 0x51, 0x84, 0x01, 0xe2, 0xa0, 0x3d, 0xc5]);
}

#[test]
fn parse_get_reply_decodes_brightness() {
    let header = [0x6e, 0x88, 0x02, 0x00, 0x10, 0x00, 0x00, 0x64, 0x00, 0x54];
    let xor = 0x50u8 ^ ddcci_xor(&header);
    let mut packet = [0u8; 12];
    packet[..10].copy_from_slice(&header);
    packet[10] = xor;
    let cur = parse_get_reply(&packet).unwrap();
    assert_eq!(cur, 0x0054);
}

#[test]
fn parse_get_reply_decodes_extended_value() {
    let body = [0x6e, 0x88, 0x02, 0x00, 0xe2, 0x01, 0x00, 0x0d, 0x00, 0x06];
    let xor = 0x50u8 ^ ddcci_xor(&body);
    let mut packet = [0u8; 12];
    packet[..10].copy_from_slice(&body);
    packet[10] = xor;
    let cur = parse_get_reply(&packet).unwrap();
    assert_eq!(cur, 6);
}

#[test]
fn smart_image_hdr_frames_match_captures() {
    assert_eq!(build_write(0xDC, 0x24), [0x6e, 0x51, 0x84, 0x03, 0xdc, 0x00, 0x24, 0x40]);
    assert_eq!(build_write(0xDC, 0x30), [0x6e, 0x51, 0x84, 0x03, 0xdc, 0x00, 0x30, 0x54]);
    assert_eq!(build_write(0xDC, 0x21), [0x6e, 0x51, 0x84, 0x03, 0xdc, 0x00, 0x21, 0x45]);
    assert_eq!(build_write(0xDC, 0x22), [0x6e, 0x51, 0x84, 0x03, 0xdc, 0x00, 0x22, 0x46]);
    assert_eq!(build_write(0xDC, 0x23), [0x6e, 0x51, 0x84, 0x03, 0xdc, 0x00, 0x23, 0x47]);
    assert_eq!(build_write(0xDC, 0x20), [0x6e, 0x51, 0x84, 0x03, 0xdc, 0x00, 0x20, 0x44]);
}

#[test]
fn smart_image_sdr_frames_match_captures() {
    assert_eq!(build_write(0xDC, 0x00), [0x6e, 0x51, 0x84, 0x03, 0xdc, 0x00, 0x00, 0x64]);
    assert_eq!(build_write(0xDC, 0x04), [0x6e, 0x51, 0x84, 0x03, 0xdc, 0x00, 0x04, 0x60]);
    assert_eq!(build_write(0xDC, 0x08), [0x6e, 0x51, 0x84, 0x03, 0xdc, 0x00, 0x08, 0x6c]);
    assert_eq!(build_write(0xDC, 0x11), [0x6e, 0x51, 0x84, 0x03, 0xdc, 0x00, 0x11, 0x75]);
}

#[test]
fn sharpness_frames_match_captures() {
    assert_eq!(build_write(0x87, 0), [0x6e, 0x51, 0x84, 0x03, 0x87, 0x00, 0x00, 0x3f]);
    assert_eq!(build_write(0x87, 100), [0x6e, 0x51, 0x84, 0x03, 0x87, 0x00, 0x64, 0x5b]);
}

#[test]
fn gamma_frames_match_captures() {
    assert_eq!(build_write(0x72, 0x50), [0x6e, 0x51, 0x84, 0x03, 0x72, 0x00, 0x50, 0x9a]);
    assert_eq!(build_write(0x72, 0x64), [0x6e, 0x51, 0x84, 0x03, 0x72, 0x00, 0x64, 0xae]);
    assert_eq!(build_write(0x72, 0x78), [0x6e, 0x51, 0x84, 0x03, 0x72, 0x00, 0x78, 0xb2]);
    assert_eq!(build_write(0x72, 0x8C), [0x6e, 0x51, 0x84, 0x03, 0x72, 0x00, 0x8c, 0x46]);
    assert_eq!(build_write(0x72, 0xA0), [0x6e, 0x51, 0x84, 0x03, 0x72, 0x00, 0xa0, 0x6a]);
}

#[test]
fn srgb_frames_match_captures() {
    assert_eq!(
        build_extended_set(0x20, 0x00),
        [0x6e, 0x51, 0x86, 0x03, 0xe2, 0xa0, 0x20, 0x00, 0x00, 0xd8]
    );
    assert_eq!(
        build_extended_set(0x20, 0x02),
        [0x6e, 0x51, 0x86, 0x03, 0xe2, 0xa0, 0x20, 0x00, 0x02, 0xda]
    );
}

#[test]
fn color_temp_frames_match_captures() {
    assert_eq!(build_write(0x14, 0x02), [0x6e, 0x51, 0x84, 0x03, 0x14, 0x00, 0x02, 0xae]);
    assert_eq!(build_write(0x14, 0x04), [0x6e, 0x51, 0x84, 0x03, 0x14, 0x00, 0x04, 0xa8]);
    assert_eq!(build_write(0x14, 0x05), [0x6e, 0x51, 0x84, 0x03, 0x14, 0x00, 0x05, 0xa9]);
    assert_eq!(build_write(0x14, 0x0A), [0x6e, 0x51, 0x84, 0x03, 0x14, 0x00, 0x0a, 0xa6]);
    assert_eq!(build_write(0x14, 0x0D), [0x6e, 0x51, 0x84, 0x03, 0x14, 0x00, 0x0d, 0xa1]);
}

#[test]
fn pixel_orbiting_frames_match_captures() {
    assert_eq!(
        build_extended_set(0x34, 0),
        [0x6e, 0x51, 0x86, 0x03, 0xe2, 0xa0, 0x34, 0x00, 0x00, 0xcc]
    );
    assert_eq!(
        build_extended_set(0x34, 2),
        [0x6e, 0x51, 0x86, 0x03, 0xe2, 0xa0, 0x34, 0x00, 0x02, 0xce]
    );
    assert_eq!(
        build_extended_set(0x34, 3),
        [0x6e, 0x51, 0x86, 0x03, 0xe2, 0xa0, 0x34, 0x00, 0x03, 0xcf]
    );
    assert_eq!(
        build_extended_set(0x34, 4),
        [0x6e, 0x51, 0x86, 0x03, 0xe2, 0xa0, 0x34, 0x00, 0x04, 0xc8]
    );
}

#[test]
fn screen_saver_frames_match_captures() {
    assert_eq!(
        build_extended_set(0x35, 0),
        [0x6e, 0x51, 0x86, 0x03, 0xe2, 0xa0, 0x35, 0x00, 0x00, 0xcd]
    );
    assert_eq!(
        build_extended_set(0x35, 2),
        [0x6e, 0x51, 0x86, 0x03, 0xe2, 0xa0, 0x35, 0x00, 0x02, 0xcf]
    );
    assert_eq!(
        build_extended_set(0x35, 3),
        [0x6e, 0x51, 0x86, 0x03, 0xe2, 0xa0, 0x35, 0x00, 0x03, 0xce]
    );
}

#[test]
fn pixel_refresh_frame_matches_capture() {
    let p = build_extended_set(0x36, 0x01);
    assert_eq!(p, [0x6e, 0x51, 0x86, 0x03, 0xe2, 0xa0, 0x36, 0x00, 0x01, 0xcf]);
}

#[test]
fn auto_warning_frames_match_captures() {
    assert_eq!(
        build_extended_set(0x43, 0),
        [0x6e, 0x51, 0x86, 0x03, 0xe2, 0xa0, 0x43, 0x00, 0x00, 0xbb]
    );
    assert_eq!(
        build_extended_set(0x43, 1),
        [0x6e, 0x51, 0x86, 0x03, 0xe2, 0xa0, 0x43, 0x00, 0x01, 0xba]
    );
}

#[test]
fn info_request_frames_match_captures() {
    assert_eq!(
        build_get_info([0xE9, 0x0D, 0x00, 0x00]),
        [0x6e, 0x51, 0x86, 0x01, 0xfe, 0xe9, 0x0d, 0x00, 0x00, 0xa2]
    );
    assert_eq!(
        build_get_info([0xE1, 0xE6, 0x06, 0x00]),
        [0x6e, 0x51, 0x86, 0x01, 0xfe, 0xe1, 0xe6, 0x06, 0x00, 0x47]
    );
    assert_eq!(
        build_get_info([0xE1, 0xE6, 0x1D, 0x00]),
        [0x6e, 0x51, 0x86, 0x01, 0xfe, 0xe1, 0xe6, 0x1d, 0x00, 0x5c]
    );
    assert_eq!(
        build_get_info([0xE1, 0xE8, 0x00, 0x00]),
        [0x6e, 0x51, 0x86, 0x01, 0xfe, 0xe1, 0xe8, 0x00, 0x00, 0x4f]
    );
    assert_eq!(
        build_get_info([0xEF, 0x13, 0x00, 0x20]),
        [0x6e, 0x51, 0x86, 0x01, 0xfe, 0xef, 0x13, 0x00, 0x20, 0x9a]
    );
}

#[test]
fn parse_info_reply_decodes_model() {
    let reply = [
        0x6e, 0x8d, 0x02, 0xfe, 0xe9, 0x34, 0x39, 0x4d, 0x32, 0x43, 0x38, 0x39, 0x30, 0x30,
        0x00, 0x96,
    ];
    assert_eq!(parse_info_reply(&reply).unwrap(), "49M2C8900");
}

#[test]
fn parse_info_reply_decodes_firmware() {
    let reply = [
        0x6e, 0x88, 0x02, 0xfe, 0xe1, 0x31, 0x2e, 0x30, 0x32, 0x00, 0xb6,
    ];
    assert_eq!(parse_info_reply(&reply).unwrap(), "1.02");
}

#[test]
fn parse_info_reply_rejects_bad_checksum() {
    let mut reply = [
        0x6e, 0x88, 0x02, 0xfe, 0xe1, 0x31, 0x2e, 0x30, 0x32, 0x00, 0xb6,
    ];
    reply[10] = 0xFF;
    assert!(parse_info_reply(&reply).is_err());
}

#[test]
fn parse_info_reply_decodes_serial_without_envelope() {
    let reply = [
        0x6e, 0x8d, 0x41, 0x55, 0x34, 0x32, 0x34, 0x33, 0x39, 0x30, 0x30, 0x30, 0x30, 0x33,
        0x35, 0x99,
    ];
    assert_eq!(parse_info_reply(&reply).unwrap(), "AU42439000035");
}

#[test]
fn hdr_active_derives_from_smart_image_index() {
    assert!(!smart_image_is_hdr_active(0));
    assert!(!smart_image_is_hdr_active(10));
    assert!(smart_image_is_hdr_active(11));
    assert!(smart_image_is_hdr_active(15));
    assert!(!smart_image_is_hdr_active(16));
}

#[test]
fn smart_image_index_round_trip() {
    assert_eq!(lookup_index(&SMART_IMAGE_MODES, 0x0000), 0);
    assert_eq!(lookup_index(&SMART_IMAGE_MODES, 0x0024), 15);
    assert_eq!(SMART_IMAGE_MODES[15].0, 0x24);
}

#[test]
fn parse_get_reply_rejects_bad_checksum() {
    let mut packet = [0x6e, 0x88, 0x02, 0x00, 0x10, 0x00, 0x00, 0x64, 0x00, 0x54, 0x00, 0];
    packet[10] = 0xFF;
    assert!(parse_get_reply(&packet).is_err());
}

#[test]
fn input_index_decodes_dp1_from_capture() {
    assert_eq!(input_index_from_raw(0x350F), 0);
    assert_eq!(input_index_from_raw(0x3511), 2); // HDMI1
}

#[test]
fn language_index_decodes_english() {
    assert_eq!(language_index_from_raw(0x0002), 1); // English = entry 1
    assert_eq!(language_index_from_raw(0x0001), 0); // Chinese (Traditional)
}

#[test]
fn sliders_read_back_what_was_set() {
    let mut m = PhilipsEvnia49::new();
    assert_eq!(m.id, "philips_evnia_49_2109_8884");
    let c = m.set_range("brightness", 75).unwrap();
    assert_eq!(c.frame, build_write(0x10, 75));
    assert_eq!(m.brightness, 50);
    m.range_written(&c);
    assert_eq!(m.brightness, 75);
    m.apply_reading(Setting::Range(RangeSetting::Brightness), 75);
    assert_eq!(m.brightness, 75);
    let c = m.set_range("light_enhancement", 99).unwrap();
    assert_eq!((c.value, c.frame), (3, build_extended_set(0x3D, 3).to_vec()));
    let c = m.set_range("power_led", -4).unwrap();
    assert_eq!((c.value, c.frame), (0, build_write(0xF2, 0).to_vec()));
    assert_eq!(m.set_range("nothing", 1).unwrap_err(), ControlError::UnknownKey);
}

#[test]
fn switches_read_back_what_was_set() {
    let mut m = PhilipsEvnia49::new();
    let c = m.set_boolean("audio_mute", true).unwrap();
    assert_eq!(c.frame, build_write(0x8D, 1));
    m.boolean_written(&c);
    assert!(m.audio_mute);
    assert_eq!(m.set_boolean("audio_mute", false).unwrap().frame, build_write(0x8D, 2));
    m.apply_reading(Setting::Boolean(BooleanSetting::AudioMute), 2);
    assert!(!m.audio_mute);
    assert_eq!(m.set_boolean("srgb", true).unwrap().frame, build_extended_set(0x20, 0x02));
    assert_eq!(m.set_boolean("resolution_notice", true).unwrap().frame, build_write(0xE9, 2));
    assert_eq!(m.set_boolean("nothing", true).unwrap_err(), ControlError::UnknownKey);
}

#[test]
fn selections_read_back_what_was_set() {
    let mut m = PhilipsEvnia49::new();
    let c = m.set_choice("smart_image", 15).unwrap();
    assert_eq!(c.frame, build_write(0xDC, 0x24));
    m.choice_written(&c);
    assert_eq!(m.smart_image, 15);
    m.smart_image = 0;
    m.apply_reading(Setting::Choice(ChoiceSetting::SmartImage), 0x24);
    assert_eq!(m.smart_image, 15);
    let c = m.set_choice("gamma", 100).unwrap();
    assert_eq!((c.selected, c.frame), (4, build_write(0x72, 0xA0).to_vec()));
    assert_eq!(m.set_choice("nothing", 0).unwrap_err(), ControlError::UnknownKey);
}

#[test]
fn a_refresh_keeps_what_could_not_be_read() {
    let mut m = PhilipsEvnia49::new();
    assert_eq!(refresh_settings().len(), 31);
    let mut readings = vec![None; 31];
    readings[1] = Some(42);
    readings[2] = Some(500);
    m.refresh_from_monitor(&readings);
    assert_eq!((m.brightness, m.contrast, m.volume), (50, 42, 100));
    m.refresh_from_monitor(&[Some(7)]);
    assert_eq!((m.brightness, m.contrast), (7, 42));
    assert_eq!(
        PhilipsEvnia49::read_request(Setting::Range(RangeSetting::Contrast)),
        build_get_standard(0x12)
    );
    assert_eq!(
        PhilipsEvnia49::read_request(Setting::Boolean(BooleanSetting::Srgb)),
        build_get_extended(0x20)
    );
}

#[test]
fn the_only_button_refreshes_the_pixels() {
    let m = PhilipsEvnia49::new();
    assert_eq!(m.trigger_action("pixel_refresh").unwrap(), build_extended_set(0x36, 0x01));
    assert_eq!(m.trigger_action("reboot").unwrap_err(), ControlError::UnknownKey);
}

#[test]
fn empty_info_strings_are_forgotten() {
    let mut m = PhilipsEvnia49::new();
    m.read_device_info(DeviceInfo {
        model: Some("49M2C8900".to_string()),
        firmware: None,
        panel_variant: Some(String::new()),
        panel_id: None,
        serial: Some("AU1".to_string()),
    });
    assert_eq!(m.hardware_serial().as_deref(), Some("AU1"));
    assert_eq!(
        m.debug_info_extra(),
        vec![("model_number", "49M2C8900".to_string()), ("serial_number", "AU1".to_string())]
    );
    assert_eq!(PhilipsEvnia49::info_addresses()[4], [0xEF, 0x13, 0x00, 0x20]);
}

#[test]
fn unknown_codes_pick_the_first_entry() {
    assert_eq!(lookup_index(&GAMMA_VALUES, 0x64), 1);
    assert_eq!(lookup_index(&GAMMA_VALUES, 0x63), 0);
    assert_eq!(input_index_from_raw(0x3500), 0);
    assert_eq!(language_index_from_raw(0xFF), 1);
    let options = choices_from_table(&GAMMA_VALUES);
    assert_eq!(options.len(), 5);
    assert_eq!((options[1].id.as_str(), options[1].label), ("1", GAMMA_VALUES[1].1));
}

#[test]
fn the_wire_device_lists_every_control() {
    let mut m = PhilipsEvnia49::new();
    m.smart_image = 15;
    let switches = m.get_booleans();
    let hdr = switches.iter().find(|b| b.key == "hdr_active").unwrap();
    assert!(hdr.value && hdr.read_only);
    let d = m.serialize();
    assert_eq!(d.id, "philips_evnia_49_2109_8884");
}
