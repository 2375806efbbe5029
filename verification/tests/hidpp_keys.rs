//! Controls.

use halod_drivers::logitech::protocols::hidpp::v2::keys::{
    button_bitmap_to_cids, cid_label, encode_set_cid_reporting, parse_button_bitmap_event,
    parse_cid_info, parse_diverted_buttons_event,
};

#[test]
fn keys_cid_label_known_tasks() {
    assert_eq!(cid_label(0x0050, 0x0038), "Left Button");
    assert_eq!(cid_label(0x0051, 0x0039), "Right Button");
    assert_eq!(cid_label(0x0052, 0x00C8), "DPI Up");
    assert_eq!(cid_label(0x0053, 0x00C7), "DPI Down");
}

#[test]
fn keys_cid_label_unknown_falls_back_to_hex() {
    let label = cid_label(0x1234, 0x9999);
    assert!(
        label.contains("0x1234"),
        "label should contain the CID hex: {label}"
    );
}

#[test]
fn keys_button_bitmap_decodes_to_cids() {
    assert_eq!(button_bitmap_to_cids(0x0000), Vec::<u16>::new());
    assert_eq!(button_bitmap_to_cids(0x0001), vec![1]);
    assert_eq!(button_bitmap_to_cids(0x0080), vec![8]);
    assert_eq!(button_bitmap_to_cids(0x0800), vec![12]);
    assert_eq!(button_bitmap_to_cids(0x0005), vec![1, 3]);
    assert_eq!(button_bitmap_to_cids(0x0803), vec![1, 2, 12]);
}

#[test]
fn parse_button_bitmap_event_reads_le() {
    assert_eq!(
        parse_button_bitmap_event(&[0x05, 0x00, 0x00, 0x00]),
        vec![1, 3]
    );
}

#[test]
fn keys_diverted_buttons_event_reads_be_u16_chunks() {
    let data: &[u8] = &[0x00, 0x50, 0x00, 0x51, 0x00, 0x00, 0x00, 0x00];
    assert_eq!(parse_diverted_buttons_event(data), vec![0x0050, 0x0051]);
}

#[test]
fn keys_diverted_buttons_event_empty_and_all_zero() {
    assert_eq!(parse_diverted_buttons_event(&[]), Vec::<u16>::new());
    assert_eq!(
        parse_diverted_buttons_event(&[0x00, 0x00, 0x00, 0x00]),
        Vec::<u16>::new()
    );
}

#[test]
fn keys_diverted_buttons_event_ignores_trailing_odd_byte() {
    let data: &[u8] = &[0x01, 0xB4, 0x07];
    assert_eq!(parse_diverted_buttons_event(data), vec![0x01B4]);
}

#[test]
fn keys_cid_info_parses_fields() {
    let reply: &[u8] = &[0x00, 0x50, 0x00, 0x38, 0x08, 0x01, 0x02, 0xFF];
    let info = parse_cid_info(reply).unwrap();
    assert_eq!(info.cid, 0x0050);
    assert_eq!(info.task_id, 0x0038);
    assert_eq!(info.flags, 0x08);
    assert_eq!(info.group, 0x02);
    assert!(info.divertable());
}

#[test]
fn keys_cid_info_rejects_short_reply() {
    assert_eq!(parse_cid_info(&[]), None);
    assert_eq!(
        parse_cid_info(&[0x00, 0x50, 0x00, 0x38, 0x08, 0x01, 0x02]),
        None
    );
}

#[test]
fn keys_set_cid_reporting_encodes_divert_flag() {
    let diverted = encode_set_cid_reporting(0x0050, true);
    assert_eq!(diverted.len(), 16);
    assert_eq!(diverted[0], 0x00);
    assert_eq!(diverted[1], 0x50);
    assert_eq!(diverted[2], 0x01);
    assert!(diverted[3..].iter().all(|&b| b == 0));

    let native = encode_set_cid_reporting(0x01B4, false);
    assert_eq!(native[0], 0x01);
    assert_eq!(native[1], 0xB4);
    assert_eq!(native[2], 0x00);
    assert!(native[3..].iter().all(|&b| b == 0));
}

#[test]
fn controls_cid_label_known_tasks() {
    assert_eq!(cid_label(0x0050, 0x0038), "Left Button");
    assert_eq!(cid_label(0x0051, 0x0039), "Right Button");
    assert_eq!(cid_label(0x0052, 0x00C8), "DPI Up");
    assert_eq!(cid_label(0x0053, 0x00C7), "DPI Down");
}

#[test]
fn controls_cid_label_unknown_falls_back_to_hex() {
    let label = cid_label(0x1234, 0x9999);
    assert!(label.contains("0x1234"), "label should contain the CID hex: {label}");
}

#[test]
fn controls_button_bitmap_decodes_to_cids() {
    assert_eq!(button_bitmap_to_cids(0x0000), Vec::<u16>::new());
    assert_eq!(button_bitmap_to_cids(0x0001), vec![1]);
    assert_eq!(button_bitmap_to_cids(0x0080), vec![8]);
    assert_eq!(button_bitmap_to_cids(0x0800), vec![12]);
    assert_eq!(button_bitmap_to_cids(0x0005), vec![1, 3]);
    assert_eq!(button_bitmap_to_cids(0x0803), vec![1, 2, 12]);
}

#[test]
fn controls_diverted_buttons_event_reads_be_u16_chunks() {
    let data: &[u8] = &[0x00, 0x50, 0x00, 0x51, 0x00, 0x00, 0x00, 0x00];
    assert_eq!(parse_diverted_buttons_event(data), vec![0x0050, 0x0051]);
}

#[test]
fn controls_diverted_buttons_event_empty_and_all_zero() {
    assert_eq!(parse_diverted_buttons_event(&[]), Vec::<u16>::new());
    assert_eq!(
        parse_diverted_buttons_event(&[0x00, 0x00, 0x00, 0x00]),
        Vec::<u16>::new()
    );
}

#[test]
fn controls_diverted_buttons_event_ignores_trailing_odd_byte() {
    let data: &[u8] = &[0x01, 0xB4, 0x07];
    assert_eq!(parse_diverted_buttons_event(data), vec![0x01B4]);
}

#[test]
fn controls_cid_info_parses_fields() {
    let reply: &[u8] = &[0x00, 0x50, 0x00, 0x38, 0x08, 0x01, 0x02, 0xFF];
    let info = parse_cid_info(reply).unwrap();
    assert_eq!(info.cid, 0x0050);
    assert_eq!(info.task_id, 0x0038);
    assert_eq!(info.flags, 0x08);
    assert_eq!(info.group, 0x02);
    assert!(info.flags & 0x08 != 0);
}

#[test]
fn controls_cid_info_rejects_short_reply() {
    assert_eq!(parse_cid_info(&[]), None);
    assert_eq!(parse_cid_info(&[0x00, 0x50, 0x00, 0x38, 0x08, 0x01, 0x02]), None);
}

#[test]
fn controls_set_cid_reporting_encodes_divert_flag() {
    let diverted = encode_set_cid_reporting(0x0050, true);
    assert_eq!(diverted.len(), 16);
    assert_eq!(diverted[0], 0x00);
    assert_eq!(diverted[1], 0x50);
    assert_eq!(diverted[2], 0x01);
    assert!(diverted[3..].iter().all(|&b| b == 0));
    let native = encode_set_cid_reporting(0x01B4, false);
    assert_eq!(native[0], 0x01);
    assert_eq!(native[1], 0xB4);
    assert_eq!(native[2], 0x00);
    assert!(native[3..].iter().all(|&b| b == 0));
}
