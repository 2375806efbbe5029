//! Requests, replies and the readers that put replies together.

use halod_drivers::logitech::protocols::hidpp::collection::is_candidate;
use halod_drivers::logitech::protocols::hidpp::crc::{crc16, crc16_prefix};
use halod_drivers::logitech::protocols::hidpp::enumeration::{
    get_feature_index, EnumStage, FeatureEnumeration,
};
use halod_drivers::logitech::protocols::hidpp::v1::Hidpp10;
use halod_drivers::logitech::protocols::hidpp::v2::audio::{frequency_starts, EqInfo};
use halod_drivers::logitech::protocols::hidpp::v2::battery::{BatteryReading, BatterySource};
use halod_drivers::logitech::protocols::hidpp::v2::rgb::KeyboardLayout;
use halod_drivers::logitech::protocols::hidpp::v2::{Hidpp20, NameReader};
use halod_drivers::logitech::protocols::hidpp::{
    dispatch_packet, Dispatch, HidppMessenger, InflightRequest, Listener, ListenerAction,
    PkWriteCoordinator, ReadOutcome, RequestError, WriteOutcome, MAX_CONSECUTIVE_READ_ERRORS,
};
use std::collections::HashMap;

const REQUEST: InflightRequest = InflightRequest { devnum: 2, sub_id: 5 };

fn device(features: &[(u16, u8)]) -> Hidpp20 {
    Hidpp20::new(2, features.iter().copied().collect::<HashMap<u16, u8>>())
}

#[test]
fn replies_reach_the_waiting_request() {
    let mut inflight = Some(REQUEST);
    let d = dispatch_packet(&[0x11, 2, 5, 0x01, 7, 8], &mut inflight);
    assert!(matches!(d, Dispatch::Reply(data) if data == vec![7, 8]));
    assert_eq!(inflight, None);
}

#[test]
fn refusals_reach_the_waiting_request() {
    for mark in [0x8F, 0xFF] {
        let mut inflight = Some(REQUEST);
        let d = dispatch_packet(&[0x10, 2, mark, 5, 0x11, 9, 0], &mut inflight);
        assert!(matches!(
            d,
            Dispatch::Refusal { sub_id, feature: 5, func: 0x11, code: 9 } if sub_id == mark
        ));
        assert_eq!(inflight, None);
    }
}

#[test]
fn other_packets_are_notifications() {
    for packet in [[0x11, 3, 5, 0x01, 7], [0x11, 2, 6, 0x01, 7], [0x11, 1, 0x8F, 0x01, 7]] {
        let mut inflight = Some(REQUEST);
        let d = dispatch_packet(&packet, &mut inflight);
        let Dispatch::Notification(n) = d else {
            panic!("{d:?}");
        };
        assert_eq!((n.devnum, n.sub_id, n.address), (packet[1], packet[2], packet[3]));
        assert_eq!(n.data, vec![7]);
        assert_eq!(inflight, Some(REQUEST));
    }
    let mut inflight = Some(REQUEST);
    assert!(matches!(dispatch_packet(&[0x11, 2, 5], &mut inflight), Dispatch::Ignored));
    assert!(matches!(dispatch_packet(&[0x20, 2, 5, 1], &mut inflight), Dispatch::Ignored));
    assert_eq!(inflight, Some(REQUEST));
}

#[test]
fn a_request_waits_until_it_is_answered_or_given_up() {
    let mut msg = HidppMessenger::new();
    let packet = msg.feature_request(2, 5, 0x10, &[1]);
    assert_eq!((packet.len(), &packet[..5]), (20, &[0x11, 2, 5, 0x11, 1][..]));
    assert_eq!(msg.inflight, Some(REQUEST));
    assert_eq!(msg.written(2, 5, WriteOutcome::Done), Ok(()));
    assert!(matches!(msg.received(&[0x11, 2, 5, 0x11, 42]), Dispatch::Reply(_)));
    assert_eq!(msg.inflight, None);

    msg.feature_request(2, 5, 0x10, &[1]);
    assert_eq!(msg.written(2, 5, WriteOutcome::Failed), Err(RequestError::WriteFailed));
    assert_eq!(msg.inflight, None);
    msg.feature_request(2, 5, 0x10, &[1]);
    assert_eq!(
        msg.written(2, 5, WriteOutcome::TimedOut),
        Err(RequestError::WriteTimeout { devnum: 2, sub_id: 5 })
    );
    msg.feature_request(2, 5, 0x10, &[1]);
    assert_eq!(
        msg.reply_timed_out(2, 5),
        RequestError::ReplyTimeout { devnum: 2, sub_id: 5 }
    );
    assert_eq!(msg.inflight, None);
}

#[test]
fn short_requests_are_long_where_asked_for() {
    let mut short = HidppMessenger::new();
    assert_eq!(short.feature_request(1, 0, 0x00, &[0, 1]).len(), 7);
    let mut long = HidppMessenger::new().with_long_requests();
    assert_eq!(long.feature_request(1, 0, 0x00, &[0, 1]).len(), 20);
}

#[test]
fn registers_have_nine_bit_addresses() {
    let mut msg = HidppMessenger::new();
    assert_eq!(msg.hidpp10_read(0xFF, 0x2B5, &[0x20]), vec![0x10, 0xFF, 0x83, 0xB5, 0x20, 0, 0]);
    assert_eq!(
        HidppMessenger::hidpp10_write(0xFF, 0x0B2, &[1, 2, 3, 4]),
        vec![0x10, 0xFF, 0x80, 0xB2, 1, 2, 3]
    );
    let fire = HidppMessenger::hidpp_long_fire(1, 0x0E, 0x3C, &[9]);
    assert_eq!((fire.len(), &fire[..5]), (20, &[0x11, 1, 0x0E, 0x3C, 9][..]));
}

#[test]
fn listeners_give_up_after_a_run_of_errors() {
    let mut l = Listener::new();
    let failed = || ReadOutcome::Failed("timeout".to_string());
    assert!(matches!(l.advance(failed()), ListenerAction::BackOff { log: true }));
    assert!(matches!(l.advance(failed()), ListenerAction::BackOff { log: false }));
    assert!(matches!(l.advance(ReadOutcome::Data(Vec::new())), ListenerAction::Read));
    assert_eq!(l.consecutive_errors, 0);
    assert!(
        matches!(l.advance(ReadOutcome::Data(vec![1])), ListenerAction::Dispatch(b) if b == vec![1])
    );
    for _ in 1..MAX_CONSECUTIVE_READ_ERRORS {
        assert!(matches!(l.advance(failed()), ListenerAction::BackOff { .. }));
    }
    assert!(matches!(l.advance(failed()), ListenerAction::Stop));
    let gone = ReadOutcome::Failed("device disconnected".to_string());
    assert!(matches!(Listener::new().advance(gone), ListenerAction::Stop));
}

/// Plays a device whose feature set is at index 4 and has the given codes.
fn enumerate(codes: &[u16], fails: u8) -> FeatureEnumeration {
    let mut e = FeatureEnumeration::new();
    let mut msg = HidppMessenger::new();
    while let Some(packet) = e.next_request(&mut msg, 2) {
        let reply = match e.stage {
            EnumStage::Locate => Some(vec![4, 0]),
            EnumStage::Count { .. } => Some(vec![codes.len() as u8]),
            _ if packet[4] == fails => None,
            _ => Some(codes[packet[4] as usize - 1].to_be_bytes().to_vec()),
        };
        e.advance(reply.as_deref());
    }
    e
}

#[test]
fn every_feature_is_enumerated() {
    let e = enumerate(&[0x0005, 0x2201, 0x0000], 0);
    assert_eq!(e.stage, EnumStage::Done);
    let mut table: Vec<(u16, u8)> = e.table.iter().map(|(c, i)| (*c, *i)).collect();
    table.sort();
    assert_eq!(table, vec![(0x0000, 0), (0x0001, 4), (0x0005, 1), (0x2201, 2)]);
}

#[test]
fn a_failed_entry_makes_the_enumeration_incomplete() {
    let e = enumerate(&[0x0005, 0x2201], 2);
    assert_eq!(e.stage, EnumStage::Incomplete { errors: 1, count: 2 });
    let mut none = FeatureEnumeration::new();
    none.advance(Some(&[0, 0]));
    assert_eq!(none.stage, EnumStage::Done);
    assert!(none.table.is_empty());
    let mut failed = FeatureEnumeration::new();
    failed.advance(None);
    assert_eq!(failed.stage, EnumStage::Failed);
    assert_eq!(get_feature_index(&[7]), Some(7));
    assert_eq!(get_feature_index(&[]), None);
}

#[test]
fn names_are_put_together_from_parts() {
    let mut reader = NameReader::new(Some(&[6]));
    assert_eq!(reader.next_offset(), Some(0));
    reader.advance(Some(b"G502"));
    assert_eq!(reader.next_offset(), Some(4));
    reader.advance(Some(b" Xtail"));
    assert_eq!(reader.next_offset(), None);
    assert_eq!(reader.device_name().as_deref(), Some("G502 X"));
    assert_eq!(NameReader::new(None).device_name(), None);
}

#[test]
fn requests_go_to_the_index_of_their_feature() {
    let d = device(&[(0x0005, 3), (0x1004, 8)]);
    let mut msg = HidppMessenger::new();
    assert!(d.has(0x1004) && !d.has(0x1001));
    assert_eq!(d.idx(0x0005), Some(3));
    assert_eq!(d.devnum(), 2);
    let packet = d.device_name_length_request(&mut msg).unwrap();
    assert_eq!(&packet[..4], &[0x11, 2, 3, 0x01]);
    assert_eq!(d.sidetone_request(&mut msg), None);
    assert_eq!(&d.call(&mut msg, 9, 0x20, &[5])[..5], &[0x11, 2, 9, 0x21, 5]);
}

#[test]
fn the_better_battery_feature_is_read() {
    let unified = device(&[(0x1004, 8), (0x1001, 9)]).battery_source();
    assert_eq!(unified, BatterySource::Unified(8));
    assert_eq!(device(&[(0x1001, 9)]).battery_source(), BatterySource::Voltage(9));
    assert_eq!(device(&[]).battery_source(), BatterySource::Absent);
    assert_eq!(
        Hidpp20::read_battery(unified, Some(&[130, 0, 1])),
        Some(BatteryReading { percent: 100, charging: true })
    );
    assert_eq!(Hidpp20::read_battery(unified, None), None);
    assert_eq!(Hidpp20::read_battery(BatterySource::Absent, Some(&[50])), None);
}

#[test]
fn an_equalizer_is_put_together_from_replies() {
    let info = EqInfo { count: 9, db_min: -6, db_max: 6 };
    assert_eq!(frequency_starts(&info), vec![0, 7]);
    let first: Vec<u8> = (0..15).collect();
    let eq = Hidpp20::read_equalizer(
        Some(&[2, 6, 0, 0, 0]),
        &[Some(vec![0, 0x00, 0x20, 0x00, 0x40])],
        Some(&[0xFF, 3]),
    );
    assert_eq!(eq.info, Some(EqInfo { count: 2, db_min: -6, db_max: 6 }));
    assert_eq!((eq.freqs, eq.bands), (vec![0x20, 0x40], vec![-1, 3]));
    let silent = Hidpp20::read_equalizer(None, &[Some(first)], None);
    assert!(silent.info.is_none() && silent.freqs.is_empty() && silent.bands.is_empty());
}

#[test]
fn counts_of_unanswered_questions_are_zero() {
    assert_eq!(Hidpp20::reprog_control_count(Some(&[12])), 12);
    assert_eq!(Hidpp20::reprog_control_count(None), 0);
    assert_eq!(Hidpp20::gkey_count(Some(&[])), 0);
    assert_eq!(Hidpp10::device_count(Some(&[0, 3])), 3);
    assert_eq!(Hidpp10::device_count(None), 0);
    assert_eq!(Hidpp20::read_keyboard_layout(Some(&[13])), KeyboardLayout::CH);
    assert_eq!(Hidpp20::read_keyboard_layout(None), KeyboardLayout::Unknown);
    assert_eq!(Hidpp20::read_current_dpi(Some(&[0, 3, 0x20])), Some(800));
}

#[test]
fn paired_devices_have_a_product_id() {
    let pair = [0, 0, 0, 0x40, 0x99, 0, 0, 0];
    let d = Hidpp10::paired_info(2, Some(&pair), None).unwrap();
    assert_eq!((d.devnum, d.wpid, d.serial), (2, 0x4099, None));
    assert!(Hidpp10::paired_info(2, Some(&[0; 8]), None).is_none());
    assert!(Hidpp10::paired_info(2, Some(&pair[..7]), None).is_none());
    assert!(Hidpp10::paired_info(2, None, None).is_none());
    let receiver = Hidpp10::new(0xFF);
    assert_eq!(receiver.unpair(3)[..6], [0x10, 0xFF, 0x80, 0xB2, 0x03, 3]);
}

#[test]
fn the_last_batch_of_a_device_is_pending() {
    let mut c = PkWriteCoordinator::new();
    c.post(1, vec![vec![1]]);
    c.post(2, vec![vec![2]]);
    c.post(1, vec![vec![3]]);
    assert_eq!(c.pending.get(&1), Some(&vec![vec![3]]));
    assert_eq!(c.pending.len(), 2);
}

#[test]
fn checksums_close_and_notice_changes() {
    let data = b"profile sector";
    let crc = crc16(data);
    let mut stored = data.to_vec();
    stored.extend_from_slice(&crc.to_be_bytes());
    assert_eq!(crc16(&stored), 0);
    assert_eq!(crc16_prefix(&stored, data.len()), crc);
    stored[3] ^= 0x10;
    assert_ne!(crc16(&stored), 0);
}

#[test]
fn candidates_match_ids_and_serial() {
    let ids = (0x046D, 0xC547);
    assert!(is_candidate(ids, None, ids, Some("A")));
    assert!(is_candidate(ids, Some(""), ids, None));
    assert!(is_candidate(ids, Some("A"), ids, Some("A")));
    assert!(!is_candidate(ids, Some("A"), ids, Some("B")));
    assert!(!is_candidate(ids, Some("A"), ids, None));
    assert!(!is_candidate(ids, None, (0x046D, 0xC548), None));
}
