//! Sensitivity.

use halod_drivers::logitech::protocols::hidpp::v2::settings::dpi::{
    encode_set_dpi, parse_current_dpi, parse_dpi_list, DpiListReader,
};

#[test]
fn dpi_test_dpi_list_explicit_values() {
    let raw: &[u8] = &[0x01, 0x90, 0x03, 0x20, 0x06, 0x40, 0x00, 0x00];
    assert_eq!(parse_dpi_list(raw), vec![400, 800, 1600]);
}

#[test]
fn dpi_test_dpi_list_range_encoding() {
    let raw: &[u8] = &[0x01, 0x90, 0xE1, 0x90, 0x06, 0x40, 0x00, 0x00];
    assert_eq!(parse_dpi_list(raw), vec![400, 800, 1200, 1600]);
}

#[test]
fn dpi_list_range_step_past_u16_does_not_panic() {
    let raw: &[u8] = &[0xDF, 0xFF, 0xFF, 0xFF, 0xFF, 0xFF, 0x00, 0x00];
    assert_eq!(parse_dpi_list(raw), vec![57343, 65534]);
}

#[test]
fn dpi_list_range_to_max_end_terminates() {
    let raw: &[u8] = &[
        0x90, 0x00, 0xFF, 0xFF, 0xFF, 0xFF, 0xFF, 0xFF, 0xFF, 0xFF, 0x00, 0x00,
    ];
    assert_eq!(parse_dpi_list(raw), vec![36864, 45055, 53246, 61437]);
}

#[test]
fn dpi_test_parse_current_dpi_long_reply_with_sensor_echo() {
    assert_eq!(
        parse_current_dpi(&[0x00, 0x06, 0x40, 0x00, 0x00]),
        Some(1600)
    );
}

#[test]
fn dpi_test_parse_current_dpi_short_reply() {
    assert_eq!(parse_current_dpi(&[0x03, 0x20]), Some(800));
}

#[test]
fn dpi_test_parse_current_dpi_rejects_zero() {
    assert_eq!(parse_current_dpi(&[0x00, 0x00, 0x00]), None);
    assert_eq!(parse_current_dpi(&[0x00, 0x00]), None);
}

#[test]
fn dpi_test_parse_current_dpi_too_short() {
    assert_eq!(parse_current_dpi(&[]), None);
    assert_eq!(parse_current_dpi(&[0x42]), None);
}

#[test]
fn dpi_test_encode_set_dpi() {
    assert_eq!(encode_set_dpi(1600), [0x00, 0x06, 0x40]);
    assert_eq!(encode_set_dpi(800), [0x00, 0x03, 0x20]);
    assert_eq!(encode_set_dpi(3200), [0x00, 0x0c, 0x80]);
    assert_eq!(encode_set_dpi(0), [0x00, 0x00, 0x00]);
}

#[test]
fn dpi_list_is_read_until_its_end_mark() {
    let mut reader = DpiListReader::new();
    reader.advance(Some(&[0x00, 0x01, 0x90, 0xE1, 0x90]));
    assert!(!reader.ended);
    assert_eq!(reader.part, 1);
    reader.advance(Some(&[0x00, 0x06, 0x40, 0x00, 0x00]));
    assert!(reader.ended);
    assert_eq!(reader.read_dpi_list(), vec![400, 800, 1200, 1600]);
}

#[test]
fn dpi_list_stops_at_a_failed_part() {
    let mut reader = DpiListReader::new();
    reader.advance(Some(&[0x00, 0x01, 0x90]));
    reader.advance(None);
    assert!(reader.ended);
    assert_eq!(reader.read_dpi_list(), vec![400]);
}

#[test]
fn set_dpi_bytes_read_back() {
    for dpi in [1u16, 255, 256, 1600, 65535] {
        assert_eq!(parse_current_dpi(&encode_set_dpi(dpi)), Some(dpi));
    }
}
