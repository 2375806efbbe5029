//! Stored profiles and their directory.

use halod_drivers::logitech::protocols::hidpp::crc::crc16;
use halod_drivers::logitech::protocols::hidpp::v2::settings::onboard::{
    parse_dpi_steps_from_sector, parse_profile_directory, patch_profile_sector,
    rom_source_sector, set_sector_crc,
};

fn profile2_before() -> Vec<u8> {
    let mut v = vec![0xFFu8; 255];
    let bytes: &[u8] = &[
        0x02, 0x02, 0x00, 0x20, 0x03, 0xb0, 0x04, 0x40, 0x06, 0x60, 0x09, 0x80, 0x0c, 0xff, 0xff, 0xff,
        0xff, 0x00, 0xff, 0xff, 0xff, 0xff, 0xff, 0xff, 0xff, 0xff, 0xff, 0xff, 0x3c, 0x00, 0x2c, 0x01,
        0x80, 0x01, 0x00, 0x01, 0x80, 0x01, 0x00, 0x02, 0x80, 0x01, 0x00, 0x04, 0x80, 0x01, 0x00, 0x08,
        0x90, 0x0b, 0x00, 0x00, 0x80, 0x01, 0x00, 0x10, 0x90, 0x01, 0x00, 0x00, 0x90, 0x02, 0x00, 0x00,
        0x90, 0x0a, 0x00, 0x00, 0x90, 0x03, 0x00, 0x00, 0x90, 0x04, 0x00, 0x00, 0x90, 0x10, 0x00, 0x00,
        0x90, 0x11, 0x00, 0x00, 0xff, 0xff, 0xff, 0xff, 0xff, 0xff, 0xff, 0xff, 0xff, 0xff, 0xff, 0xff,
        0x80, 0x01, 0x00, 0x01, 0x80, 0x01, 0x00, 0x02, 0x80, 0x02, 0x01, 0x17, 0x80, 0x01, 0x00, 0x08,
        0xff, 0xff, 0xff, 0xff, 0x80, 0x01, 0x00, 0x10, 0x80, 0x02, 0x03, 0x2b, 0x80, 0x02, 0x01, 0x2b,
        0x80, 0x02, 0x01, 0x27, 0x80, 0x02, 0x01, 0x1d, 0x80, 0x02, 0x01, 0x1b, 0x80, 0x03, 0x00, 0xea,
        0x80, 0x03, 0x00, 0xe9, 0xff, 0xff, 0xff, 0xff, 0xff, 0xff, 0xff, 0xff, 0xff, 0xff, 0xff, 0xff,
    ];
    v[..bytes.len()].copy_from_slice(bytes);
    let tail: &[u8] = &[
        0x0f, 0x00, 0x00, 0x00, 0x00, 0x00, 0x00, 0x00, 0x64, 0x00, 0x00, 0x0f, 0x00, 0x00, 0x00, 0x00,
        0x00, 0x00, 0x00, 0x64, 0x00, 0x00, 0x10, 0x00, 0x00, 0x00, 0x00, 0x00, 0x00, 0x00, 0x64, 0x00,
        0x00, 0x10, 0x00, 0x00, 0x00, 0x00, 0x00, 0x00, 0x00, 0x64, 0x00, 0x00, 0x03, 0x0b, 0x6e,
    ];
    v[0xd0..0xd0 + tail.len()].copy_from_slice(tail);
    v
}

#[test]
fn patch_dpi_steps_updates_bytes_3_to_12() {
    let mut sector = profile2_before();
    patch_profile_sector(&mut sector, &[1200, 1600], 255).unwrap();
    assert_eq!(u16::from_le_bytes([sector[3], sector[4]]), 1200);
    assert_eq!(u16::from_le_bytes([sector[5], sector[6]]), 1600);
    for i in 2..5usize {
        assert_eq!(u16::from_le_bytes([sector[3 + i*2], sector[4 + i*2]]), 0);
    }
}

#[test]
fn patch_clamps_resolution_default_index() {
    let mut sector = profile2_before();
    assert_eq!(sector[1], 0x02);
    patch_profile_sector(&mut sector, &[1200, 1600], 255).unwrap();
    assert_eq!(sector[1], 1, "resolution_default_index must be clamped to n-1");
}

#[test]
fn patch_preserves_button_data() {
    let before = profile2_before();
    let mut sector = before.clone();
    patch_profile_sector(&mut sector, &[1200, 1600], 255).unwrap();
    assert_eq!(&sector[32..160], &before[32..160]);
}

#[test]
fn patch_updates_crc() {
    let mut sector = profile2_before();
    patch_profile_sector(&mut sector, &[1200, 1600], 255).unwrap();
    assert_eq!([sector[253], sector[254]], [0x89, 0x1a]);
    let computed = crc16(&sector[..253]);
    assert_eq!(computed.to_be_bytes(), [sector[253], sector[254]]);
}

#[test]
fn patch_crc_matches_unmodified_original() {
    let sector = profile2_before();
    let stored = u16::from_be_bytes([sector[253], sector[254]]);
    assert_eq!(crc16(&sector[..253]), stored);
}

#[test]
fn patch_empty_steps_does_not_panic() {
    let mut sector = profile2_before();
    let before_byte1 = sector[1];
    let before_byte2 = sector[2];
    patch_profile_sector(&mut sector, &[], 255).unwrap();
    for i in 0..5usize {
        assert_eq!(u16::from_le_bytes([sector[3 + i*2], sector[4 + i*2]]), 0);
    }
    assert_eq!(sector[1], before_byte1);
    assert_eq!(sector[2], before_byte2);
}

#[test]
fn parse_profile_directory_reads_all_entries() {
    let dir = vec![
        0x00, 0x01, 0x01, 0x20,
        0x00, 0x02, 0x01, 0x40,
        0x00, 0x03, 0x00, 0x20,
        0xFF, 0xFF, 0x00, 0x00,
    ];
    assert_eq!(
        parse_profile_directory(&dir),
        vec![(0x0001, true), (0x0002, true), (0x0003, false)],
    );
}

#[test]
fn parse_profile_directory_stops_at_terminator_and_sector_zero() {
    assert!(parse_profile_directory(&[0xFF, 0xFF, 0x00, 0x00]).is_empty());
    assert!(parse_profile_directory(&[0xFF; 64]).is_empty());
    let dir = vec![
        0x00, 0x01, 0x01, 0x00,
        0x00, 0x00, 0x01, 0x00,
        0x00, 0x02, 0x01, 0x00,
    ];
    assert_eq!(parse_profile_directory(&dir), vec![(0x0001, true)]);
}

#[test]
fn directory_enable_flip_roundtrips_with_crc() {
    let sector_size = 64usize;
    let mut dir = vec![0xFFu8; sector_size];
    dir[0..12].copy_from_slice(&[
        0x00, 0x01, 0x01, 0x00,
        0x00, 0x02, 0x01, 0x00,
        0x00, 0x03, 0x01, 0x00,
    ]);
    dir[12..14].copy_from_slice(&[0xFF, 0xFF]);
    set_sector_crc(&mut dir, sector_size).unwrap();
    dir[2 * 4 + 2] = 0;
    set_sector_crc(&mut dir, sector_size).unwrap();

    let entries = parse_profile_directory(&dir);
    assert_eq!(entries, vec![(0x0001, true), (0x0002, true), (0x0003, false)]);
    let crc = crc16(&dir[..sector_size - 2]).to_be_bytes();
    assert_eq!(&dir[sector_size - 2..], &crc);
}

#[test]
fn rom_ram_sector_mapping() {
    for slot in 1u8..=5 {
        let rom_sector = 0x0100u16 | slot as u16;
        assert_eq!(rom_sector & 0xFF, slot as u16);
        assert!(rom_sector >= 0x0100);
    }
}

#[test]
fn rom_source_sector_falls_back_to_profile_1() {
    assert_eq!(rom_source_sector(1, 2), 0x0101);
    assert_eq!(rom_source_sector(2, 2), 0x0102);
    assert_eq!(rom_source_sector(3, 2), 0x0101);
    assert_eq!(rom_source_sector(5, 2), 0x0101);
}

#[test]
fn parse_dpi_steps_from_sector_extracts_steps() {
    let mut sector = vec![0u8; 32];
    sector[3..5].copy_from_slice(&800u16.to_le_bytes());
    sector[5..7].copy_from_slice(&1600u16.to_le_bytes());
    sector[7..9].copy_from_slice(&3200u16.to_le_bytes());
    sector[9..11].copy_from_slice(&0u16.to_le_bytes());
    sector[11..13].copy_from_slice(&0xFFFFu16.to_le_bytes());
    assert_eq!(parse_dpi_steps_from_sector(&sector), vec![800, 1600, 3200]);
    assert!(parse_dpi_steps_from_sector(&[0u8; 8]).is_empty());
}
