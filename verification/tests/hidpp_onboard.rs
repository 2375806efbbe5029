//! Onboard profiles.

use halod_drivers::logitech::protocols::hidpp::crc::crc16;
use halod_drivers::logitech::protocols::hidpp::v2::settings::onboard::{
    build_onboard_profiles, parse_dpi_steps_from_sector, parse_onboard_caps,
    parse_profile_directory, patch_profile_sector, rom_source_sector, set_sector_crc,
    tail_slice_bounds, OnboardCaps, ReadStage, SectorReader, SectorTooShort,
};
use halod_drivers::logitech::protocols::hidpp::v2::Hidpp20;
use std::collections::HashMap;

fn profile2_before() -> Vec<u8> {
    let mut v = vec![0xFFu8; 255];
    let bytes: &[u8] = &[
        0x02, 0x02, 0x00, 0x20, 0x03, 0xb0, 0x04, 0x40, 0x06, 0x60, 0x09, 0x80, 0x0c, 0xff,
        0xff, 0xff, 0xff, 0x00, 0xff, 0xff, 0xff, 0xff, 0xff, 0xff, 0xff, 0xff, 0xff, 0xff,
        0x3c, 0x00, 0x2c, 0x01, 0x80, 0x01, 0x00, 0x01, 0x80, 0x01, 0x00, 0x02, 0x80, 0x01,
        0x00, 0x04, 0x80, 0x01, 0x00, 0x08, 0x90, 0x0b, 0x00, 0x00, 0x80, 0x01, 0x00, 0x10,
        0x90, 0x01, 0x00, 0x00, 0x90, 0x02, 0x00, 0x00, 0x90, 0x0a, 0x00, 0x00, 0x90, 0x03,
        0x00, 0x00, 0x90, 0x04, 0x00, 0x00, 0x90, 0x10, 0x00, 0x00, 0x90, 0x11, 0x00, 0x00,
        0xff, 0xff, 0xff, 0xff, 0xff, 0xff, 0xff, 0xff, 0xff, 0xff, 0xff, 0xff, 0x80, 0x01,
        0x00, 0x01, 0x80, 0x01, 0x00, 0x02, 0x80, 0x02, 0x01, 0x17, 0x80, 0x01, 0x00, 0x08,
        0xff, 0xff, 0xff, 0xff, 0x80, 0x01, 0x00, 0x10, 0x80, 0x02, 0x03, 0x2b, 0x80, 0x02,
        0x01, 0x2b, 0x80, 0x02, 0x01, 0x27, 0x80, 0x02, 0x01, 0x1d, 0x80, 0x02, 0x01, 0x1b,
        0x80, 0x03, 0x00, 0xea, 0x80, 0x03, 0x00, 0xe9, 0xff, 0xff, 0xff, 0xff, 0xff, 0xff,
        0xff, 0xff, 0xff, 0xff, 0xff, 0xff,
    ];
    v[..bytes.len()].copy_from_slice(bytes);
    let tail: &[u8] = &[
        0x0f, 0x00, 0x00, 0x00, 0x00, 0x00, 0x00, 0x00, 0x64, 0x00, 0x00, 0x0f, 0x00, 0x00,
        0x00, 0x00, 0x00, 0x00, 0x00, 0x64, 0x00, 0x00, 0x10, 0x00, 0x00, 0x00, 0x00, 0x00,
        0x00, 0x00, 0x64, 0x00, 0x00, 0x10, 0x00, 0x00, 0x00, 0x00, 0x00, 0x00, 0x00, 0x64,
        0x00, 0x00, 0x03, 0x0b, 0x6e,
    ];
    v[0xd0..0xd0 + tail.len()].copy_from_slice(tail);
    v
}

#[test]
fn parse_onboard_caps_reads_rom_count_and_sector_size() {
    let info = [0, 0, 0, 4, 2, 0, 0, 0x00, 0xFF];
    assert_eq!(
        parse_onboard_caps(&info),
        Some(OnboardCaps {
            rom_profile_count: 2,
            sector_size: 255
        })
    );
    assert!(parse_onboard_caps(&[0, 0, 0, 0, 0, 0, 0, 0]).is_none());
    assert!(parse_onboard_caps(&[0, 0, 0, 4, 2, 0, 0, 0, 0]).is_none());
}

#[test]
fn onboard_patch_dpi_steps_updates_bytes_3_to_12() {
    let mut sector = profile2_before();
    patch_profile_sector(&mut sector, &[1200, 1600], 255).unwrap();
    assert_eq!(u16::from_le_bytes([sector[3], sector[4]]), 1200);
    assert_eq!(u16::from_le_bytes([sector[5], sector[6]]), 1600);
    for i in 2..5usize {
        assert_eq!(
            u16::from_le_bytes([sector[3 + i * 2], sector[4 + i * 2]]),
            0
        );
    }
}

#[test]
fn onboard_patch_clamps_resolution_default_index() {
    let mut sector = profile2_before();
    assert_eq!(sector[1], 0x02);
    patch_profile_sector(&mut sector, &[1200, 1600], 255).unwrap();
    assert_eq!(sector[1], 1);
}

#[test]
fn onboard_patch_preserves_button_data() {
    let before = profile2_before();
    let mut sector = before.clone();
    patch_profile_sector(&mut sector, &[1200, 1600], 255).unwrap();
    assert_eq!(&sector[32..160], &before[32..160]);
}

#[test]
fn onboard_patch_updates_crc() {
    let mut sector = profile2_before();
    patch_profile_sector(&mut sector, &[1200, 1600], 255).unwrap();
    assert_eq!([sector[253], sector[254]], [0x89, 0x1a]);
    let computed = crc16(&sector[..253]);
    assert_eq!(computed.to_be_bytes(), [sector[253], sector[254]]);
}

#[test]
fn onboard_patch_crc_matches_unmodified_original() {
    let sector = profile2_before();
    let stored = u16::from_be_bytes([sector[253], sector[254]]);
    assert_eq!(crc16(&sector[..253]), stored);
}

#[test]
fn tail_slice_bounds_clamps_and_handles_short_chunk() {
    assert_eq!(tail_slice_bounds(16, 240, 255), (1, 16));
    assert_eq!(tail_slice_bounds(8, 240, 255), (1, 8));
    assert_eq!(tail_slice_bounds(0, 240, 255), (0, 0));
}

#[test]
fn onboard_patch_5_steps_no_zeroing_no_clamp() {
    let mut sector = profile2_before();
    let steps = [800u16, 1200, 1600, 2400, 3200];
    patch_profile_sector(&mut sector, &steps, 255).unwrap();
    for (i, &expected) in steps.iter().enumerate() {
        assert_eq!(
            u16::from_le_bytes([sector[3 + i * 2], sector[4 + i * 2]]),
            expected
        );
    }
    assert_eq!(sector[1], 0x02);
}

#[test]
fn onboard_patch_empty_steps_does_not_panic() {
    let mut sector = profile2_before();
    let before_byte1 = sector[1];
    let before_byte2 = sector[2];
    patch_profile_sector(&mut sector, &[], 255).unwrap();
    for i in 0..5usize {
        assert_eq!(
            u16::from_le_bytes([sector[3 + i * 2], sector[4 + i * 2]]),
            0
        );
    }
    assert_eq!(sector[1], before_byte1);
    assert_eq!(sector[2], before_byte2);
}

#[test]
fn onboard_parse_profile_directory_reads_all_entries() {
    let dir = vec![
        0x00, 0x01, 0x01, 0x20, 0x00, 0x02, 0x01, 0x40, 0x00, 0x03, 0x00, 0x20, 0xFF, 0xFF,
        0x00, 0x00,
    ];
    assert_eq!(
        parse_profile_directory(&dir),
        vec![(0x0001, true), (0x0002, true), (0x0003, false)],
    );
}

#[test]
fn onboard_parse_profile_directory_stops_at_terminator_and_sector_zero() {
    assert!(parse_profile_directory(&[0xFF, 0xFF, 0x00, 0x00]).is_empty());
    assert!(parse_profile_directory(&[0xFF; 64]).is_empty());
    let dir = vec![
        0x00, 0x01, 0x01, 0x00, 0x00, 0x00, 0x01, 0x00, 0x00, 0x02, 0x01, 0x00,
    ];
    assert_eq!(parse_profile_directory(&dir), vec![(0x0001, true)]);
}

#[test]
fn onboard_directory_enable_flip_roundtrips_with_crc() {
    let sector_size = 64usize;
    let mut dir = vec![0xFFu8; sector_size];
    dir[0..12].copy_from_slice(&[
        0x00, 0x01, 0x01, 0x00, 0x00, 0x02, 0x01, 0x00, 0x00, 0x03, 0x01, 0x00,
    ]);
    dir[12..14].copy_from_slice(&[0xFF, 0xFF]);
    set_sector_crc(&mut dir, sector_size).unwrap();
    dir[2 * 4 + 2] = 0;
    set_sector_crc(&mut dir, sector_size).unwrap();
    let entries = parse_profile_directory(&dir);
    assert_eq!(
        entries,
        vec![(0x0001, true), (0x0002, true), (0x0003, false)]
    );
    let crc = crc16(&dir[..sector_size - 2]).to_be_bytes();
    assert_eq!(&dir[sector_size - 2..], &crc);
}

#[test]
fn onboard_rom_ram_sector_mapping() {
    for slot in 1u8..=5 {
        let rom_sector = 0x0100u16 | slot as u16;
        assert_eq!(rom_sector & 0xFF, slot as u16);
        assert!(rom_sector >= 0x0100);
    }
}

#[test]
fn onboard_build_onboard_profiles_marks_active_slot() {
    let dir = vec![(0x0001u16, true), (0x0002, true), (0x0003, false)];
    let profiles = build_onboard_profiles(&dir, 0x0002, 2).expect("non-empty directory");
    assert_eq!(profiles.active_slot, 2);
    assert_eq!(profiles.slots.len(), 3);
    assert!(profiles.slots[1].active);
    assert!(!profiles.slots[0].active);
    assert!(!profiles.slots[2].enabled);
    let rom_active = build_onboard_profiles(&dir, 0x0102, 2).expect("non-empty");
    assert_eq!(rom_active.active_slot, 2);
    assert!(build_onboard_profiles(&[], 0x0001, 2).is_none());
}

#[test]
fn onboard_build_onboard_profiles_marks_rom_backed_slots() {
    let dir = vec![
        (0x0001u16, true),
        (0x0002, true),
        (0x0003, false),
        (0x0004, false),
    ];
    let profiles = build_onboard_profiles(&dir, 0x0001, 2).expect("non-empty");
    assert!(profiles.slots[0].has_rom_default);
    assert!(profiles.slots[1].has_rom_default);
    assert!(!profiles.slots[2].has_rom_default);
    assert!(!profiles.slots[3].has_rom_default);
}

#[test]
fn onboard_rom_source_sector_falls_back_to_profile_1() {
    assert_eq!(rom_source_sector(1, 2), 0x0101);
    assert_eq!(rom_source_sector(2, 2), 0x0102);
    assert_eq!(rom_source_sector(3, 2), 0x0101);
    assert_eq!(rom_source_sector(5, 2), 0x0101);
}

#[test]
fn onboard_parse_dpi_steps_from_sector_extracts_steps() {
    let mut sector = vec![0u8; 32];
    sector[3..5].copy_from_slice(&800u16.to_le_bytes());
    sector[5..7].copy_from_slice(&1600u16.to_le_bytes());
    sector[7..9].copy_from_slice(&3200u16.to_le_bytes());
    sector[9..11].copy_from_slice(&0u16.to_le_bytes());
    sector[11..13].copy_from_slice(&0xFFFFu16.to_le_bytes());
    assert_eq!(parse_dpi_steps_from_sector(&sector), vec![800, 1600, 3200]);
    assert!(parse_dpi_steps_from_sector(&[0u8; 8]).is_empty());
}

#[test]
fn read_profile_sector_retries_transient_errors() {
    let mut reader = SectorReader::new(0x0001, 16).unwrap();
    reader.advance(None);
    reader.advance(None);
    assert_eq!(reader.stage, ReadStage::Reading);
    reader.advance(Some(&[0xABu8; 16]));
    assert_eq!(reader.stage, ReadStage::Done);
    assert_eq!(reader.buf, vec![0xABu8; 16]);
}

#[test]
fn read_profile_sector_gives_up_after_exhausting_retries() {
    let mut reader = SectorReader::new(0x0001, 16).unwrap();
    reader.advance(None);
    reader.advance(None);
    reader.advance(None);
    assert_eq!(reader.stage, ReadStage::Failed);
    assert_eq!(reader.next_params(), None);
}

#[test]
fn sector_is_read_back_as_it_is_stored() {
    let stored: Vec<u8> = (0..255u32).map(|i| (i * 7) as u8).collect();
    let mut reader = SectorReader::new(0x0102, stored.len()).unwrap();
    let mut questions = 0;
    while let Some(p) = reader.next_params() {
        assert_eq!(&p[..2], &[0x01, 0x02]);
        let at = u16::from_be_bytes([p[2], p[3]]) as usize;
        reader.advance(Some(&stored[at..at + 16]));
        questions += 1;
    }
    assert_eq!(questions, 16);
    assert_eq!(reader.stage, ReadStage::Done);
    assert_eq!(reader.buf, stored);
}

#[test]
fn sectors_shorter_than_a_piece_are_not_read() {
    assert!(SectorReader::new(1, 15).is_none());
}

#[test]
fn patched_steps_read_back_and_the_checksum_closes() {
    let mut sector = profile2_before();
    patch_profile_sector(&mut sector, &[1200, 1600, 3200], 255).unwrap();
    assert_eq!(parse_dpi_steps_from_sector(&sector), vec![1200, 1600, 3200]);
    assert_eq!(crc16(&sector), 0);
}

#[test]
fn only_usable_steps_that_find_room_are_read_back() {
    let mut sector = profile2_before();
    patch_profile_sector(&mut sector, &[800, 0, 1600, 0xFFFF, 3200, 6400], 255).unwrap();
    assert_eq!(parse_dpi_steps_from_sector(&sector), vec![800, 1600, 3200]);
    patch_profile_sector(&mut sector, &[1, 2, 3, 4, 5, 6, 7], 255).unwrap();
    assert_eq!(parse_dpi_steps_from_sector(&sector), vec![1, 2, 3, 4, 5]);
    assert_eq!(crc16(&sector), 0);
}

#[test]
fn short_buffers_are_refused_untouched() {
    let mut short = vec![1u8; 12];
    assert_eq!(
        patch_profile_sector(&mut short, &[800], 12),
        Err(SectorTooShort { len: 12, sector_size: 12 })
    );
    assert_eq!(
        set_sector_crc(&mut short, 13),
        Err(SectorTooShort { len: 12, sector_size: 13 })
    );
    assert_eq!(short, vec![1u8; 12]);
}

#[test]
fn written_sector_is_erased_sent_and_ended() {
    let h = Hidpp20::new(0x01, HashMap::from([(0x8100u16, 0x0bu8)]));
    let bytes: Vec<u8> = (1..=20).collect();
    let packets = h.write_profile_sector(false, 0x0003, &bytes).unwrap();
    assert_eq!(packets.len(), 4);
    assert_eq!(&packets[0][..10], &[0x11, 0x01, 0x0b, 0x61, 0x00, 0x03, 0, 0, 0, 20]);
    assert_eq!(packets[1][3], 0x71);
    assert_eq!(&packets[1][4..20], &bytes[..16]);
    assert_eq!(&packets[2][4..9], &[17, 18, 19, 20, 0]);
    assert_eq!(packets[3][3], 0x81);
    assert!(Hidpp20::new(1, HashMap::new()).write_profile_sector(false, 3, &bytes).is_none());
}
