//! Equalizer and sidetone.

use halod_drivers::logitech::protocols::hidpp::v2::audio::{
    encode_eq_bands, encode_sidetone, parse_eq_bands, parse_eq_frequencies, parse_eq_info,
    parse_sidetone, EqInfo,
};

#[test]
fn eq_info_applies_db_range_fixup() {
    let info = parse_eq_info(&[4, 12, 0, 0, 0]).unwrap();
    assert_eq!(
        info,
        EqInfo {
            count: 4,
            db_min: -12,
            db_max: 12
        }
    );
}

#[test]
fn eq_info_honours_explicit_min_max() {
    let info = parse_eq_info(&[10, 12, 0, 0xF8, 6]).unwrap();
    assert_eq!(info.db_min, -8); // 0xF8 = -8
    assert_eq!(info.db_max, 6);
}

#[test]
fn eq_info_rejects_short_or_zero_count() {
    assert!(parse_eq_info(&[4, 12, 0, 0]).is_none());
    assert!(parse_eq_info(&[0, 12, 0, 0, 0]).is_none());
}

#[test]
fn eq_frequencies_parses_big_endian_pairs() {
    let reply = [0x00, 0x00, 0x1F, 0x00, 0xFA, 0x03, 0xE8];
    assert_eq!(parse_eq_frequencies(&reply, 3), vec![31, 250, 1000]);
}

#[test]
fn eq_frequencies_caps_at_remaining_and_length() {
    let reply = [0x00, 0x00, 0x1F, 0x00, 0xFA];
    assert_eq!(parse_eq_frequencies(&reply, 7), vec![31, 250]);
    assert_eq!(parse_eq_frequencies(&reply, 1), vec![31]);
}

#[test]
fn eq_bands_read_signed_from_byte_zero() {
    let reply = [0xF4, 0x00, 0x06];
    assert_eq!(parse_eq_bands(&reply, 3), vec![-12, 0, 6]);
}

#[test]
fn eq_bands_pads_missing_with_zero() {
    assert_eq!(parse_eq_bands(&[0x06], 3), vec![6, 0, 0]);
}

#[test]
fn encode_eq_bands_prefixes_and_clamps() {
    let payload = encode_eq_bands(&[-20, 0, 20], -12, 12);
    assert_eq!(payload, vec![0x02, 0xF4, 0x00, 0x0C]);
}

#[test]
fn sidetone_round_trips() {
    assert_eq!(parse_sidetone(&[42]), Some(42));
    assert_eq!(parse_sidetone(&[200]), Some(100));
    assert_eq!(parse_sidetone(&[]), None);
    assert_eq!(encode_sidetone(50), [50]);
    assert_eq!(encode_sidetone(250), [100]);
}
