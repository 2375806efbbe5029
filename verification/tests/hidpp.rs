//! Packets, checksums and collections.

use halod_drivers::logitech::protocols::hidpp::collection::{
    select_hidpp_paths, HidEntry, HIDPP_USAGE_LONG, HIDPP_USAGE_PAGE, HIDPP_USAGE_SHORT,
};
use halod_drivers::logitech::protocols::hidpp::crc::crc16;
use halod_drivers::logitech::protocols::hidpp::{
    build_packet, classify_read_error, ReadErrorAction, HIDPP_LONG, HIDPP_SHORT, LONG_LEN,
    MAX_CONSECUTIVE_READ_ERRORS, SHORT_LEN,
};

fn entry(path: &str, iface: i32, usage_page: u16, usage: u16) -> HidEntry {
    HidEntry {
        path: path.to_string(),
        iface,
        usage_page,
        usage,
    }
}

#[test]
fn crc16_matches_ccitt_false_check_vector() {
    assert_eq!(crc16(b"123456789"), 0x29B1);
}

#[test]
fn crc16_of_empty_input_is_initial_value() {
    assert_eq!(crc16(&[]), 0xFFFF);
}

#[test]
fn windows_two_collections_split_short_and_long() {
    let entries = vec![
        entry("col01", 2, HIDPP_USAGE_PAGE, HIDPP_USAGE_SHORT),
        entry("col02", 2, HIDPP_USAGE_PAGE, HIDPP_USAGE_LONG),
    ];
    let (short, long) = select_hidpp_paths(&entries, 2, "col02");
    assert_eq!(short, "col01");
    assert_eq!(long.as_deref(), Some("col02"));
}

#[test]
fn linux_single_path_no_long_handle() {
    let entries = vec![entry("hidraw3", 2, 0, 0)];
    let (short, long) = select_hidpp_paths(&entries, 2, "hidraw3");
    assert_eq!(short, "hidraw3");
    assert_eq!(long, None);
}

#[test]
fn pseudo_interface_entries_ignored() {
    let entries = vec![
        entry("ghost", -1, HIDPP_USAGE_PAGE, HIDPP_USAGE_SHORT),
        entry("col01", 2, HIDPP_USAGE_PAGE, HIDPP_USAGE_SHORT),
        entry("col02", 2, HIDPP_USAGE_PAGE, HIDPP_USAGE_LONG),
    ];
    let (short, long) = select_hidpp_paths(&entries, 2, "col01");
    assert_eq!(short, "col01");
    assert_eq!(long.as_deref(), Some("col02"));
}

#[test]
fn long_path_equal_to_short_is_dropped() {
    let entries = vec![
        entry("only", 2, HIDPP_USAGE_PAGE, HIDPP_USAGE_SHORT),
        entry("only", 2, HIDPP_USAGE_PAGE, HIDPP_USAGE_LONG),
    ];
    let (short, long) = select_hidpp_paths(&entries, 2, "only");
    assert_eq!(short, "only");
    assert_eq!(long, None);
}

#[test]
fn respects_interface_parameter() {
    let entries = vec![
        entry("if1-short", 1, HIDPP_USAGE_PAGE, HIDPP_USAGE_SHORT),
        entry("if1-long", 1, HIDPP_USAGE_PAGE, HIDPP_USAGE_LONG),
        entry("if2-short", 2, HIDPP_USAGE_PAGE, HIDPP_USAGE_SHORT),
        entry("if2-long", 2, HIDPP_USAGE_PAGE, HIDPP_USAGE_LONG),
    ];
    let (short, long) = select_hidpp_paths(&entries, 2, "if2-short");
    assert_eq!(short, "if2-short");
    assert_eq!(long.as_deref(), Some("if2-long"));

    let (short, long) = select_hidpp_paths(&entries, 1, "if1-short");
    assert_eq!(short, "if1-short");
    assert_eq!(long.as_deref(), Some("if1-long"));
}

#[test]
fn wired_device_two_collections() {
    let entries = vec![
        entry("g502-col01", 2, HIDPP_USAGE_PAGE, HIDPP_USAGE_SHORT),
        entry("g502-col02", 2, HIDPP_USAGE_PAGE, HIDPP_USAGE_LONG),
    ];
    let (short, long) = select_hidpp_paths(&entries, 2, "g502-col01");
    assert_eq!(short, "g502-col01");
    assert_eq!(long.as_deref(), Some("g502-col02"));
}

#[test]
fn test_hidpp_frame_short() {
    let pkt = build_packet(0x01, 0x00, 0x01, &[0xAB, 0xCD], false);
    assert_eq!(pkt.len(), SHORT_LEN);
    assert_eq!(pkt[0], HIDPP_SHORT);
    assert_eq!(pkt[1], 0x01);
    assert_eq!(pkt[2], 0x00);
    assert_eq!(pkt[3], 0x01);
    assert_eq!(pkt[4], 0xAB);
    assert_eq!(pkt[5], 0xCD);
    assert_eq!(pkt[6], 0x00);
}

#[test]
fn test_hidpp_frame_long() {
    let pkt = build_packet(0x02, 0x10, 0x21, &[1, 2, 3, 4, 5], true);
    assert_eq!(pkt.len(), LONG_LEN);
    assert_eq!(pkt[0], HIDPP_LONG);
    assert_eq!(pkt[1], 0x02);
    assert_eq!(pkt[2], 0x10);
    assert_eq!(pkt[3], 0x21);
    assert_eq!(&pkt[4..9], &[1, 2, 3, 4, 5]);
}

#[test]
fn test_classify_read_error_disconnect_substring() {
    assert_eq!(
        classify_read_error("device disconnected", 1),
        ReadErrorAction::Stop
    );
    assert_eq!(
        classify_read_error("hidapi poll error: -1", 1),
        ReadErrorAction::Stop
    );
}

#[test]
fn test_classify_read_error_first_error_logs() {
    assert_eq!(
        classify_read_error("HID read error: hidapi error: ", 1),
        ReadErrorAction::LogAndRetry
    );
}

#[test]
fn test_classify_read_error_repeat_is_silent() {
    assert_eq!(
        classify_read_error("HID read error: hidapi error: ", 2),
        ReadErrorAction::Retry
    );
    assert_eq!(
        classify_read_error(
            "HID read error: hidapi error: ",
            MAX_CONSECUTIVE_READ_ERRORS - 1
        ),
        ReadErrorAction::Retry
    );
}

#[test]
fn test_classify_read_error_threshold_stops() {
    assert_eq!(
        classify_read_error(
            "HID read error: hidapi error: ",
            MAX_CONSECUTIVE_READ_ERRORS
        ),
        ReadErrorAction::Stop
    );
}
