//! What NZXT devices have in common.

use halod_drivers::nzxt::protocols::nzxt::{
    push_grb, AccessoryInfo, NzxtBaseProtocol, ACCESSORY_REQUEST, FW_REQUEST,
};
use halod_drivers::rgb::RgbColor;

const PROTOCOL: NzxtBaseProtocol = NzxtBaseProtocol;

#[test]
fn firmware_returns_version_from_matching_packet() {
    let mut pkt = vec![0u8; 0x14 + 1];
    pkt[0] = 0x11;
    pkt[1] = 0x02;
    pkt[0x11] = 3;
    pkt[0x12] = 1;
    pkt[0x13] = 0;
    assert_eq!(
        PROTOCOL.get_firmware_version(&vec![pkt]),
        "3.1.0"
    );
}

#[test]
fn firmware_skips_unrelated_packets_before_match() {
    let garbage = vec![0xAAu8; 64];
    let mut pkt = vec![0u8; 0x14 + 1];
    pkt[0] = 0x11;
    pkt[1] = 0x02;
    pkt[0x11] = 1;
    pkt[0x12] = 2;
    pkt[0x13] = 3;
    let reports = vec![garbage.clone(), garbage.clone(), garbage, pkt];
    assert_eq!(PROTOCOL.get_firmware_version(&reports), "1.2.3");
}

#[test]
fn firmware_returns_empty_when_no_matching_packet() {
    assert_eq!(
        PROTOCOL.get_firmware_version(&vec![vec![0xAAu8; 64]; 8]),
        ""
    );
}

#[test]
fn accessories_parsed_from_matching_packet() {
    let mut pkt = vec![0u8; 30];
    pkt[0] = 0x21;
    pkt[1] = 0x03;
    pkt[14] = 2;
    pkt[15] = 0x13;
    pkt[21] = 0x17;
    let acc = PROTOCOL.detect_accessories(&vec![pkt]);
    assert_eq!(acc.len(), 2);
    assert_eq!(acc[0].channel_id, 0);
    assert_eq!(acc[0].accessory_id, 0x13);
    assert_eq!(acc[1].channel_id, 1);
    assert_eq!(acc[1].accessory_id, 0x17);
}

#[test]
fn accessories_skips_unrelated_packets_before_match() {
    let garbage = vec![0xAAu8; 64];
    let mut pkt = vec![0u8; 20];
    pkt[0] = 0x21;
    pkt[1] = 0x03;
    pkt[14] = 0;
    assert!(PROTOCOL
        .detect_accessories(&vec![garbage, pkt])
        .is_empty());
}

#[test]
fn accessories_empty_when_no_matching_packet() {
    assert!(PROTOCOL
        .detect_accessories(&vec![vec![0xAAu8; 64]; 16])
        .is_empty());
}

#[test]
fn replies_past_the_last_read_are_not_seen() {
    let mut pkt = vec![0u8; 0x14];
    pkt[0] = 0x11;
    pkt[1] = 0x02;
    pkt[0x11] = 9;
    let mut reports = vec![vec![0xAAu8; 64]; 7];
    reports.push(pkt.clone());
    assert_eq!(PROTOCOL.get_firmware_version(&reports), "9.0.0");
    reports.insert(0, vec![0xAAu8; 64]);
    assert_eq!(PROTOCOL.get_firmware_version(&reports), "");
    assert_eq!(PROTOCOL.get_firmware_version(&[vec![0x11, 0x02, 0x00]]), "");
    assert_eq!((FW_REQUEST, ACCESSORY_REQUEST), ([0x10, 0x02], [0x20, 0x03]));
}

#[test]
fn at_most_eight_channels_are_listed() {
    let mut pkt = vec![1u8; 64];
    pkt[0] = 0x21;
    pkt[1] = 0x03;
    pkt[14] = 200;
    pkt[15 + 6..15 + 12].fill(0);
    let found = PROTOCOL.detect_accessories(&[pkt]);
    let channels: Vec<u8> = found.iter().map(|a: &AccessoryInfo| a.channel_id).collect();
    assert_eq!(channels, vec![0, 2, 3, 4, 5, 6, 7]);
}

#[test]
fn colors_are_sent_green_first() {
    let mut out = vec![7];
    push_grb(&mut out, &[RgbColor { r: 1, g: 2, b: 3 }, RgbColor { r: 4, g: 5, b: 6 }]);
    assert_eq!(out, vec![7, 2, 1, 3, 5, 4, 6]);
}

#[test]
fn the_first_taken_slot_of_a_channel_counts() {
    let mut pkt = vec![0x21, 0x03];
    pkt.extend([0x00; 12]);
    pkt.push(0x01);
    pkt.extend([0x00, 0x13, 0x00, 0x00, 0x00, 0x00]);
    let first = AccessoryInfo { channel_id: 0, accessory_id: 0x13 };
    assert_eq!(PROTOCOL.detect_accessories(&[pkt.clone()]), vec![first]);

    pkt[14] = 3;
    pkt.extend([0x00, 0x00, 0x00, 0x00, 0x00, 0x1B]);
    pkt.extend([0x00, 0x00]);
    let second = AccessoryInfo { channel_id: 1, accessory_id: 0x1B };
    assert_eq!(PROTOCOL.detect_accessories(&[pkt]), vec![first, second]);
}
