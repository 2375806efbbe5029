//! Per-key frames.

use halod_drivers::logitech::protocols::hidpp::v2::rgb::delta::{encode_delta, BitWriter};
use halod_drivers::logitech::protocols::hidpp::v2::rgb::per_key::{
    encode_frame, encode_individual_pairs, PkFrameCache, FN_DELTA_4BIT, FN_FRAME_END,
    FN_SET_CONSECUTIVE, FN_SET_RANGE, SWID,
};
use halod_drivers::logitech::protocols::hidpp::{HIDPP_LONG, LONG_LEN};
use halod_drivers::rgb::RgbColor;

const DEVNUM: u8 = 0x01;
const PK_IDX: u8 = 0x09;

fn rgb(r: u8, g: u8, b: u8) -> RgbColor {
    RgbColor { r, g, b }
}

fn assert_well_formed(packets: &[Vec<u8>]) {
    for p in packets {
        assert_eq!(p.len(), LONG_LEN);
        assert_eq!(p[0], HIDPP_LONG);
        assert_eq!(p[1], DEVNUM);
        assert_eq!(p[2], PK_IDX);
    }
}

fn func(p: &[u8]) -> u8 {
    p[3] & 0xF0
}

#[test]
fn uniform_frame_is_one_range_plus_frame_end() {
    let keys: Vec<_> = (1u8..=87).map(|id| (id, rgb(0, 0, 255))).collect();
    let mut cache = PkFrameCache::default();
    let packets = encode_frame(&keys, &mut cache, DEVNUM, PK_IDX);

    assert_eq!(packets.len(), 2, "1 setRange + frameEnd");
    assert_well_formed(&packets);
    assert_eq!(func(&packets[0]), FN_SET_RANGE);
    assert_eq!(&packets[0][4..9], &[1, 87, 0, 0, 255]);
    assert_eq!(func(&packets[1]), FN_FRAME_END);
    assert_eq!(packets[1][4], 0x00);
}

#[test]
fn unchanged_frame_emits_nothing() {
    let keys: Vec<_> = (1u8..=87).map(|id| (id, rgb(10, 20, 30))).collect();
    let mut cache = PkFrameCache::default();
    assert_eq!(encode_frame(&keys, &mut cache, DEVNUM, PK_IDX).len(), 2);
    assert!(encode_frame(&keys, &mut cache, DEVNUM, PK_IDX).is_empty());
}

#[test]
fn single_key_change_sends_only_that_key() {
    let mut keys: Vec<_> = (1u8..=87).map(|id| (id, rgb(0, 0, 255))).collect();
    let mut cache = PkFrameCache::default();
    encode_frame(&keys, &mut cache, DEVNUM, PK_IDX);

    keys[40].1 = rgb(255, 0, 0); // id 41
    let packets = encode_frame(&keys, &mut cache, DEVNUM, PK_IDX);

    assert_eq!(packets.len(), 2, "1 setRange + frameEnd");
    assert_well_formed(&packets);
    assert_eq!(func(&packets[0]), FN_SET_RANGE);
    assert_eq!(&packets[0][4..9], &[41, 41, 255, 0, 0]);
}

#[test]
fn consecutive_gradient_uses_set_consecutive() {
    let keys: Vec<_> = (1u8..=10).map(|id| (id, rgb(id, id * 2, id * 3))).collect();
    let mut cache = PkFrameCache::default();
    let packets = encode_frame(&keys, &mut cache, DEVNUM, PK_IDX);

    assert_eq!(packets.len(), 3);
    assert_well_formed(&packets);
    assert_eq!(func(&packets[0]), FN_SET_CONSECUTIVE);
    assert_eq!(func(&packets[1]), FN_SET_CONSECUTIVE);
    assert_eq!(func(&packets[2]), FN_FRAME_END);
    assert_eq!(packets[0][4], 1, "first id of first chunk");
    assert_eq!(packets[1][4], 6, "first id of second chunk");
}

#[test]
fn scattered_varying_keys_pack_as_range_singletons() {
    let keys: Vec<_> = [1u8, 5, 9, 13, 17]
        .iter()
        .map(|&id| (id, rgb(id, 0, id)))
        .collect();
    let mut cache = PkFrameCache::default();
    let packets = encode_frame(&keys, &mut cache, DEVNUM, PK_IDX);

    assert_eq!(packets.len(), 3);
    assert_well_formed(&packets);
    assert_eq!(func(&packets[0]), FN_SET_RANGE);
    assert_eq!(func(&packets[1]), FN_SET_RANGE);
    assert_eq!(func(&packets[2]), FN_FRAME_END);
}

#[test]
fn non_empty_result_always_ends_with_frame_end() {
    let keys: Vec<_> = (1u8..=20).map(|id| (id, rgb(id, id, id))).collect();
    let mut cache = PkFrameCache::default();
    let packets = encode_frame(&keys, &mut cache, DEVNUM, PK_IDX);
    let last = packets.last().unwrap();
    assert_eq!(func(last), FN_FRAME_END);
    assert_eq!(last[3] & 0x0F, SWID);
    assert_eq!(last[4], 0x00);
}

#[test]
fn cache_records_full_frame_not_just_changes() {
    let mut keys: Vec<_> = (1u8..=87).map(|id| (id, rgb(0, 0, 255))).collect();
    let mut cache = PkFrameCache::default();
    encode_frame(&keys, &mut cache, DEVNUM, PK_IDX);
    keys[0].1 = rgb(1, 2, 3);
    encode_frame(&keys, &mut cache, DEVNUM, PK_IDX);
    assert!(encode_frame(&keys, &mut cache, DEVNUM, PK_IDX).is_empty());
}

#[test]
fn led_count_change_rebuilds_cache() {
    let keys87: Vec<_> = (1u8..=87).map(|id| (id, rgb(5, 5, 5))).collect();
    let keys10: Vec<_> = (1u8..=10).map(|id| (id, rgb(5, 5, 5))).collect();
    let mut cache = PkFrameCache::default();
    encode_frame(&keys87, &mut cache, DEVNUM, PK_IDX);
    assert!(!encode_frame(&keys10, &mut cache, DEVNUM, PK_IDX).is_empty());
}

#[test]
fn delta_encodes_smooth_run_into_fewer_packets() {
    let run: Vec<_> = (0u8..18).map(|i| (i + 1, rgb(i, i, i))).collect();
    let packets = encode_delta(&run, DEVNUM, PK_IDX).expect("smooth run fits 4-bit");
    assert_well_formed(&packets);
    assert_eq!(packets.len(), 2, "18 keys / 9 per packet");
    assert!(packets.iter().all(|p| func(p) == FN_DELTA_4BIT));
}

#[test]
fn delta_rejects_steep_run() {
    let run = vec![(1u8, rgb(0, 0, 0)), (2, rgb(200, 0, 0)), (3, rgb(0, 0, 0))];
    assert!(encode_delta(&run, DEVNUM, PK_IDX).is_none());
}

#[test]
fn individual_pairs_pad_short_final_batch() {
    let pairs = [
        (1u8, 1, 1, 1),
        (2, 2, 2, 2),
        (3, 3, 3, 3),
        (4, 4, 4, 4),
        (5, 5, 5, 5),
    ];
    let packets = encode_individual_pairs(&pairs, DEVNUM, PK_IDX);
    assert_eq!(packets.len(), 3, "2 setIndividual + commit");
    assert_well_formed(&packets);
    assert_eq!(packets[0][3] & 0xF0, 0x10);
    assert_eq!(&packets[1][4..8], &[5, 5, 5, 5], "fifth pair");
    assert_eq!(&packets[1][8..12], &[5, 5, 5, 5], "padded with last pair");
    assert_eq!(func(&packets[2]), FN_FRAME_END);
}

#[test]
fn bit_writer_packs_msb_first() {
    let mut w = BitWriter::new();
    w.push(0b1010, 4);
    w.push(0b0011, 4);
    assert_eq!(w.finish(), vec![0b1010_0011]);
}

/// Applies the packets of a frame to the colours of a device.
fn show(packets: &[Vec<u8>], keys: &mut [(u8, u8, u8); 256], run_len: usize) {
    for p in packets {
        match func(p) {
            FN_SET_RANGE => {
                for e in p[4..19].chunks(5) {
                    for id in e[0]..=e[1] {
                        if id != 0 {
                            keys[id as usize] = (e[2], e[3], e[4]);
                        }
                    }
                }
            }
            FN_SET_CONSECUTIVE => {
                for (i, c) in p[5..5 + 3 * run_len].chunks(3).enumerate() {
                    keys[p[4] as usize + i] = (c[0], c[1], c[2]);
                }
            }
            _ => {}
        }
    }
}

#[test]
fn shown_frame_has_every_color() {
    let keys: Vec<_> = (1u8..=20)
        .map(|id| (id, if id < 11 { rgb(id, 0, 255 - id) } else { rgb(9, 9, 9) }))
        .collect();
    let mut cache = PkFrameCache::default();
    let packets = encode_frame(&keys, &mut cache, DEVNUM, PK_IDX);
    let mut device = [(0, 0, 0); 256];
    show(&packets, &mut device, 5);
    for (id, c) in &keys {
        assert_eq!(device[*id as usize], (c.r, c.g, c.b), "key {id}");
    }
}

#[test]
fn unsorted_keys_are_sent_in_the_order_of_their_ids() {
    let keys = [(9u8, rgb(1, 1, 1)), (3, rgb(1, 1, 1)), (5, rgb(1, 1, 1))];
    let mut cache = PkFrameCache::default();
    let packets = encode_frame(&keys, &mut cache, DEVNUM, PK_IDX);
    assert_eq!(packets.len(), 2);
    assert_eq!(&packets[0][4..9], &[3, 9, 1, 1, 1]);
    assert_eq!(cache.last, vec![Some(rgb(1, 1, 1)); 3]);
}

#[test]
fn short_run_is_sent_as_single_ranges() {
    let keys = [(1u8, rgb(1, 0, 0)), (2, rgb(2, 0, 0)), (4, rgb(3, 0, 0))];
    let mut cache = PkFrameCache::default();
    let packets = encode_frame(&keys, &mut cache, DEVNUM, PK_IDX);
    assert_eq!(packets.len(), 2);
    assert_eq!(func(&packets[0]), FN_SET_RANGE);
    assert_eq!(
        &packets[0][4..19],
        &[1, 1, 1, 0, 0, 2, 2, 2, 0, 0, 4, 4, 3, 0, 0]
    );
}

#[test]
fn delta_differences_read_back() {
    let run = [
        (7u8, rgb(10, 20, 30)),
        (8, rgb(13, 12, 30)),
        (9, rgb(13, 19, 23)),
    ];
    let packets = encode_delta(&run, DEVNUM, PK_IDX).unwrap();
    assert_eq!(packets.len(), 1);
    assert_eq!(&packets[0][4..8], &[7, 10, 20, 30]);
    // +3, -8, 0, 0, +7, -7
    assert_eq!(&packets[0][8..11], &[0x38, 0x00, 0x79]);
}

#[test]
fn delta_uses_five_bits_where_four_are_not_enough() {
    let run = [(1u8, rgb(0, 0, 0)), (2, rgb(15, 0, 0))];
    let packets = encode_delta(&run, DEVNUM, PK_IDX).unwrap();
    assert_eq!(func(&packets[0]), 0x30);
    assert_eq!(packets[0][8], 0b0111_1000);
}

#[test]
fn no_pairs_send_nothing() {
    assert!(encode_individual_pairs(&[], DEVNUM, PK_IDX).is_empty());
}

/// The colours that the bytes of a packet hold for a key.
fn given(p: &[u8], id: u8) -> Vec<(u8, u8, u8)> {
    match func(p) {
        FN_SET_RANGE => p[4..19]
            .chunks(5)
            .filter(|e| e[0] <= id && id <= e[1])
            .map(|e| (e[2], e[3], e[4]))
            .collect(),
        FN_SET_CONSECUTIVE => p[5..20]
            .chunks(3)
            .enumerate()
            .filter(|(m, _)| p[4] as usize + m == id as usize)
            .map(|(_, c)| (c[0], c[1], c[2]))
            .collect(),
        _ => Vec::new(),
    }
}

#[test]
fn changed_keys_are_given_their_color_and_no_other() {
    let mut keys: Vec<_> = (1u8..=30).map(|id| (id, rgb(200, 200, 200))).collect();
    let mut cache = PkFrameCache::default();
    encode_frame(&keys, &mut cache, DEVNUM, PK_IDX);
    // A gradient, a uniform stretch and single keys, with unchanged keys between them.
    for i in 0..6 {
        keys[i].1 = rgb(10 * i as u8 + 1, 5, 5);
    }
    for i in 9..15 {
        keys[i].1 = rgb(0, 99, 0);
    }
    for i in [20, 23, 26, 29] {
        keys[i].1 = rgb(i as u8, 0, 7);
    }
    let before = cache.last.clone();
    let packets = encode_frame(&keys, &mut cache, DEVNUM, PK_IDX);
    for (i, (id, c)) in keys.iter().enumerate() {
        let own = (c.r, c.g, c.b);
        let all: Vec<_> = packets.iter().flat_map(|p| given(p, *id)).collect();
        if before[i] != Some(*c) {
            assert!(all.contains(&own), "key {id}");
        }
        assert!(all.iter().all(|g| *g == own || *g == (0, 0, 0)), "key {id}");
    }
}

#[test]
fn a_packet_of_consecutive_colors_that_is_not_full_ends_in_black() {
    let mut keys: Vec<_> = (1u8..=7).map(|id| (id, rgb(200, 200, 200))).collect();
    let mut cache = PkFrameCache::default();
    encode_frame(&keys, &mut cache, DEVNUM, PK_IDX);
    for i in 0..6 {
        keys[i].1 = rgb(i as u8 + 1, 0, 0);
    }
    let packets = encode_frame(&keys, &mut cache, DEVNUM, PK_IDX);
    assert_eq!(packets.len(), 3);
    assert_eq!(func(&packets[1]), FN_SET_CONSECUTIVE);
    assert_eq!(&packets[1][4..11], &[6, 6, 0, 0, 0, 0, 0]);
    assert_eq!(given(&packets[1], 7), vec![(0, 0, 0)]);
}

#[test]
fn a_black_key_zero_is_given_black() {
    let mut cache = PkFrameCache::default();
    let packets = encode_frame(&[(0u8, rgb(0, 0, 0))], &mut cache, DEVNUM, PK_IDX);
    assert_eq!(packets.len(), 2);
    assert_eq!(func(&packets[0]), FN_SET_RANGE);
    assert!(given(&packets[0], 0).contains(&(0, 0, 0)));
}
