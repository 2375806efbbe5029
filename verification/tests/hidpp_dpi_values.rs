//! Sensitivity replies.

use halod_drivers::logitech::protocols::hidpp::v2::settings::dpi::{
    encode_set_dpi, parse_current_dpi, parse_dpi_list,
};

#[test]
fn test_dpi_list_explicit_values() {
    let raw: &[u8] = &[0x01, 0x90, 0x03, 0x20, 0x06, 0x40, 0x00, 0x00];
    let list = parse_dpi_list(raw);
    assert_eq!(list, vec![400, 800, 1600]);
}

#[test]
fn test_dpi_list_range_encoding() {
    let raw: &[u8] = &[
        0x01, 0x90,
        0xE1, 0x90,
        0x06, 0x40,
        0x00, 0x00,
    ];
    let list = parse_dpi_list(raw);
    assert_eq!(list, vec![400, 800, 1200, 1600]);
}

#[test]
fn test_parse_current_dpi_long_reply_with_sensor_echo() {
    assert_eq!(parse_current_dpi(&[0x00, 0x06, 0x40, 0x00, 0x00]), Some(1600));
}

#[test]
fn test_parse_current_dpi_short_reply() {
    assert_eq!(parse_current_dpi(&[0x03, 0x20]), Some(800));
}

#[test]
fn test_parse_current_dpi_rejects_zero() {
    assert_eq!(parse_current_dpi(&[0x00, 0x00, 0x00]), None);
    assert_eq!(parse_current_dpi(&[0x00, 0x00]), None);
}

#[test]
fn test_parse_current_dpi_too_short() {
    assert_eq!(parse_current_dpi(&[]), None);
    assert_eq!(parse_current_dpi(&[0x42]), None);
}

#[test]
fn test_encode_set_dpi() {
    assert_eq!(encode_set_dpi(1600), [0x00, 0x06, 0x40]);
    assert_eq!(encode_set_dpi(800), [0x00, 0x03, 0x20]);
    assert_eq!(encode_set_dpi(3200), [0x00, 0x0c, 0x80]);
    assert_eq!(encode_set_dpi(0), [0x00, 0x00, 0x00]);
}
