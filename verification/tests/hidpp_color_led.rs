//! The older lighting feature.

use halod_drivers::logitech::protocols::hidpp::v2::rgb::color_led::{
    encode_color_led_set_effect_static, find_led_effect, parse_color_led_effect_entry,
    parse_color_led_zone_count, parse_color_led_zone_info,
};
use halod_drivers::rgb::RgbColor;

#[test]
fn parse_zone_count_valid() {
    let reply = [3u8, 0, 0, 0, 0];
    assert_eq!(parse_color_led_zone_count(&reply), Some(3));
}

#[test]
fn parse_zone_count_short() {
    assert_eq!(parse_color_led_zone_count(&[1, 2, 3]), None);
}

#[test]
fn parse_zone_info_valid() {
    let reply = [0u8, 0x00, 0x02, 5u8]; // zone_index=0, location=2 (Logo), count=5
    assert_eq!(parse_color_led_zone_info(&reply), Some((0, 2, 5)));
}

#[test]
fn parse_effect_entry_valid() {
    let reply = [0u8, 0, 0x00, 0x01, 0, 0, 0, 0]; // effect_id=0x0001
    assert_eq!(parse_color_led_effect_entry(&reply), Some(0x0001));
}

#[test]
fn encode_static_effect() {
    let buf = encode_color_led_set_effect_static(
        1,
        2,
        RgbColor {
            r: 0xFF,
            g: 0x80,
            b: 0x40,
        },
    );
    assert_eq!(buf[0], 1); // zone_idx
    assert_eq!(buf[1], 2); // effect_slot
    assert_eq!(buf[2], 0xFF); // R
    assert_eq!(buf[3], 0x80); // G
    assert_eq!(buf[4], 0x40); // B
}

#[test]
fn find_known_effects() {
    assert!(find_led_effect(0x01).is_some());
    assert!(find_led_effect(0x03).is_some());
    assert!(find_led_effect(0x0B).is_some());
}

#[test]
fn find_unknown_effect() {
    assert!(find_led_effect(0xFF).is_none());
}
