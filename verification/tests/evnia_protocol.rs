//! DDC/CI frames of the Evnia 49.

use halod_drivers::philips::protocols::philips_evnia::{
    build_extended_set, build_get_extended, build_get_info, build_get_standard, build_write,
    ddcci_xor, parse_get_reply, parse_info_reply, DdcError, PhilipsAmbiglowProtocol,
    PhilipsEvnia49Protocol, READ_W_INDEX, WRITE_DELAY_MS,
};

#[test]
fn ddcci_xor_empty() {
    assert_eq!(ddcci_xor(&[]), 0);
}

#[test]
fn build_write_checksum() {
    let p = build_write(0x10, 50);
    let expected = p[..7].iter().fold(0u8, |a, &b| a ^ b);
    assert_eq!(p[7], expected);
}

#[test]
fn build_extended_set_checksum() {
    let p = build_extended_set(0x04, 1);
    let expected = p[..9].iter().fold(0u8, |a, &b| a ^ b);
    assert_eq!(p[9], expected);
}

#[test]
fn build_get_standard_checksum() {
    let p = build_get_standard(0x10);
    let expected = p[..5].iter().fold(0u8, |a, &b| a ^ b);
    assert_eq!(p[5], expected);
}

#[test]
fn build_get_extended_checksum() {
    let p = build_get_extended(0x04);
    let expected = p[..7].iter().fold(0u8, |a, &b| a ^ b);
    assert_eq!(p[7], expected);
}

#[test]
fn build_get_info_checksum() {
    let p = build_get_info([0xE9, 0x0D, 0x00, 0x00]);
    let expected = p[..9].iter().fold(0u8, |a, &b| a ^ b);
    assert_eq!(p[9], expected);
}

#[test]
fn parse_get_reply_rejects_short_buffer() {
    assert!(parse_get_reply(&[0u8; 4]).is_err());
}

#[test]
fn parse_info_reply_rejects_short_buffer() {
    assert!(parse_info_reply(&[0u8; 2]).is_err());
}

fn get_reply_frame(current: u16) -> [u8; 12] {
    let mut frame = [0u8; 12];
    frame[..8].copy_from_slice(&[0x6e, 0x88, 0x02, 0x00, 0x10, 0x00, 0x00, 0x64]);
    frame[8..10].copy_from_slice(&current.to_be_bytes());
    frame[10] = 0x50 ^ ddcci_xor(&frame[..10]);
    frame
}

#[test]
fn get_replies_are_refused_for_their_reason() {
    assert_eq!(parse_get_reply(&[0u8; 11]), Err(DdcError::Short { len: 11 }));
    let good = get_reply_frame(0x0203);
    assert_eq!(parse_get_reply(&good), Ok(0x0203));
    let mut f = good;
    f[0] = 0x6f;
    assert_eq!(parse_get_reply(&f), Err(DdcError::UnexpectedSource { byte: 0x6f }));
    let mut f = good;
    f[2] = 0x03;
    assert_eq!(parse_get_reply(&f), Err(DdcError::NotGetReply { opcode: 0x03 }));
    let mut f = good;
    f[3] = 0x01;
    assert_eq!(parse_get_reply(&f), Err(DdcError::MonitorError { code: 0x01 }));
    let mut f = good;
    f[10] ^= 0xff;
    assert_eq!(
        parse_get_reply(&f),
        Err(DdcError::ChecksumMismatch { got: good[10] ^ 0xff, expected: good[10] })
    );
}

#[test]
fn info_replies_are_refused_for_their_reason() {
    assert_eq!(parse_info_reply(&[0x6e, 0x81, 0x41]), Err(DdcError::Short { len: 3 }));
    assert_eq!(
        parse_info_reply(&[0x51, 0x81, 0x41, 0x00]),
        Err(DdcError::UnexpectedSource { byte: 0x51 })
    );
    assert_eq!(
        parse_info_reply(&[0x6e, 0x85, 0x41, 0x00]),
        Err(DdcError::Truncated { need: 8, got: 4 })
    );
    let expected = 0x50 ^ 0x6e ^ 0x81 ^ 0x41;
    assert_eq!(
        parse_info_reply(&[0x6e, 0x81, 0x41, 0x00]),
        Err(DdcError::ChecksumMismatch { got: 0x00, expected })
    );
    assert_eq!(parse_info_reply(&[0x6e, 0x81, 0x41, expected]), Ok("A".to_string()));
}

#[test]
fn info_text_is_decoded_and_trimmed() {
    let mut reply = vec![0x6e, 0x86, b' ', 0xc3, 0xa9, 0xff, b' ', 0x00];
    let sum = 0x50 ^ ddcci_xor(&reply);
    reply.push(sum);
    assert_eq!(parse_info_reply(&reply).unwrap(), "\u{e9}\u{fffd}");
}

#[test]
fn built_frames_xor_to_zero() {
    assert_eq!(ddcci_xor(&build_write(0x10, 50)), 0);
    assert_eq!(ddcci_xor(&build_extended_set(0x04, 1)), 0);
    assert_eq!(ddcci_xor(&build_get_standard(0x10)), 0);
    assert_eq!(ddcci_xor(&build_get_extended(0x04)), 0);
    assert_eq!(ddcci_xor(&build_get_info([0xE9, 0x0D, 0x00, 0x00])), 0);
}

#[test]
fn the_tunnel_needs_a_transport_and_keeps_its_gap() {
    let mut p = PhilipsEvnia49Protocol::new();
    assert_eq!(p.get_standard(0x10).unwrap_err(), DdcError::NotConnected);
    assert_eq!(p.read_get_reply().unwrap_err(), DdcError::NotConnected);
    assert!(!p.close());
    p.open();
    assert!(p.is_connected());
    let w = p.get_standard(0x10).unwrap();
    assert_eq!((w.request_type, w.request, w.value, w.index), (0x40, 0xB2, 0, 0));
    assert_eq!(w.data, build_get_standard(0x10));
    assert_eq!(p.get_extended(0x3d).unwrap().data, build_get_extended(0x3d));
    assert_eq!(p.get_info([1, 2, 3, 4]).unwrap().data, build_get_info([1, 2, 3, 4]));
    let r = p.read_get_reply().unwrap();
    assert_eq!((r.request_type, r.request, r.value, r.index), (0xC0, 0xA3, 0, READ_W_INDEX));
    assert_eq!(r.data, vec![0u8; 32]);
    assert_eq!(p.write_delay(1000), None);
    p.mark_written(1000);
    assert_eq!(p.write_delay(1000), Some(WRITE_DELAY_MS));
    assert_eq!(p.write_delay(1030), Some(20));
    assert_eq!(p.write_delay(1051), None);
    assert!(p.close());
    assert!(!p.is_connected());
}

#[test]
fn register_writes_need_a_transport() {
    let mut p = PhilipsAmbiglowProtocol::new();
    assert_eq!(p.write(0xE100, &[1]).unwrap_err(), DdcError::NotConnected);
    p.open();
    assert!(p.is_connected());
    let w = p.write(0xE100, &[1, 2]).unwrap();
    assert_eq!((w.request_type, w.request, w.value, w.index), (0x40, 0x80, 0, 0xE100));
    assert_eq!(w.data, vec![1, 2]);
    assert!(p.close());
}
