//! Receivers.

use halod_drivers::logitech::protocols::hidpp::v1::receiver::{
    decode_link_established, decode_pairing_lock, parse_extended_serial, PairingError,
};

#[test]
fn decode_power_off_is_disconnected() {
    assert!(!decode_link_established(&[0x71, 0xb0, 0x40])); // device 1 off
    assert!(!decode_link_established(&[0x72, 0x99, 0x40])); // device 2 off
}

#[test]
fn decode_power_on_is_connected() {
    assert!(decode_link_established(&[0xb1, 0xb0, 0x40])); // device 1 on
    assert!(decode_link_established(&[0xb2, 0x99, 0x40])); // device 2 on
}

#[test]
fn decode_empty_payload_is_disconnected() {
    assert!(!decode_link_established(&[]));
}

#[test]
fn parse_extended_serial_returns_hex_string() {
    let ext = [0x00u8, 0xAB, 0xCD, 0xEF, 0x12, 0x00];
    assert_eq!(parse_extended_serial(&ext), Some("ABCDEF12".to_string()));
}

#[test]
fn parse_extended_serial_rejects_all_ff_sentinel() {
    let ext = [0x00u8, 0xFF, 0xFF, 0xFF, 0xFF];
    assert_eq!(parse_extended_serial(&ext), None);
}

#[test]
fn parse_extended_serial_rejects_all_zero_sentinel() {
    let ext = [0x00u8, 0x00, 0x00, 0x00, 0x00];
    assert_eq!(parse_extended_serial(&ext), None);
}

#[test]
fn parse_extended_serial_rejects_short_payload() {
    assert_eq!(parse_extended_serial(&[0x00, 0xAB, 0xCD]), None);
}

#[test]
fn decode_pairing_lock_open() {
    let s = decode_pairing_lock(0x01, &[0x00]);
    assert!(s.open);
    assert_eq!(s.error, None);
}

#[test]
fn decode_pairing_lock_closed_clean() {
    let s = decode_pairing_lock(0x00, &[0x00]);
    assert!(!s.open);
    assert_eq!(s.error, None);
}

#[test]
fn decode_pairing_lock_closed_with_error() {
    assert_eq!(
        decode_pairing_lock(0x00, &[0x02]).error,
        Some(PairingError::NotSupported)
    );
    assert_eq!(
        decode_pairing_lock(0x00, &[0x06]).error,
        Some(PairingError::SequenceTimeout)
    );
    assert_eq!(
        decode_pairing_lock(0x00, &[0x03]).error,
        Some(PairingError::TooManyDevices)
    );
}

#[test]
fn decode_pairing_lock_open_ignores_data_byte() {
    assert_eq!(decode_pairing_lock(0x01, &[0x03]).error, None);
}

#[test]
fn decode_pairing_lock_empty_payload_is_closed() {
    let s = decode_pairing_lock(0x00, &[]);
    assert!(!s.open);
    assert_eq!(s.error, None);
}

#[test]
fn pairing_error_maps_unknown_code() {
    assert_eq!(PairingError::from_code(0x7F), PairingError::Unknown(0x7F));
}
