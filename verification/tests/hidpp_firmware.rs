//! Firmware versions.

use halod_drivers::logitech::protocols::hidpp::v2::firmware::{
    firmware_count, parse_fw_entity,
};
use halod_drivers::logitech::protocols::hidpp::v2::Hidpp20;
use halod_drivers::logitech::protocols::hidpp::HidppMessenger;
use std::collections::HashMap;

#[test]
fn parse_fw_entity_decodes_main_firmware() {
    let reply = [0x00, b'M', b'P', b'M', 0x19, 0x02, 0x00, 0x16, 0x00];
    let e = parse_fw_entity(&reply).unwrap();
    assert_eq!(e.kind, 0);
    assert_eq!(e.name, "MPM");
    assert_eq!(e.version, "MPM19.02.B0016");
}

#[test]
fn parse_fw_entity_masks_type_nibble_and_trims_prefix() {
    let reply = [0x51, b'B', b'O', b'T', 0x01, 0x00, 0x00, 0x02, 0x00];
    let e = parse_fw_entity(&reply).unwrap();
    assert_eq!(e.kind, 1);
    assert_eq!(e.name, "BOT");
    assert_eq!(e.version, "BOT01.00.B0002");

    let padded = [0x00, b'R', b'B', b' ', 0x03, 0x0A, 0x01, 0x00, 0x00];
    assert_eq!(parse_fw_entity(&padded).unwrap().name, "RB");
}

#[test]
fn parse_fw_entity_short_reply_is_none() {
    assert!(parse_fw_entity(&[0x00, b'M', b'P', b'M', 0x19, 0x02, 0x00]).is_none());
}

#[test]
fn read_firmware_version_skips_bootloader_returns_main() {
    assert_eq!(firmware_count(Some(&[0x02])), Some(2));
    let replies = [
        Some(vec![0x01, b'B', b'O', b'T', 0x01, 0x00, 0x00, 0x02, 0x00]),
        Some(vec![0x00, b'M', b'P', b'M', 0x19, 0x02, 0x00, 0x16, 0x00]),
    ];
    assert_eq!(
        Hidpp20::read_firmware_version(&replies),
        Some("MPM19.02.B0016".to_string())
    );
}

#[test]
fn read_firmware_version_none_when_feature_absent() {
    let h = Hidpp20::new(0xff, HashMap::new());
    let mut msg = HidppMessenger::new();
    assert_eq!(h.firmware_count_request(&mut msg), None);
    assert_eq!(Hidpp20::read_firmware_version(&[]), None);
}

#[test]
fn firmware_version_passes_over_failed_and_short_replies() {
    let replies = [
        None,
        Some(vec![0x00, b'X']),
        Some(vec![0x50, b'A', b'B', 0, 0x0A, 0xBC, 0x12, 0x34]),
    ];
    assert_eq!(
        Hidpp20::read_firmware_version(&replies),
        Some("AB0A.BC.B1234".to_string())
    );
    assert_eq!(firmware_count(None), None);
    assert_eq!(firmware_count(Some(&[])), None);
}
