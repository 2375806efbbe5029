//! Firmware effects and single keys.

use halod_drivers::logitech::protocols::hidpp::v2::rgb::effects::{
    encode_set_effect_static, find_native_effect, parse_pk_led_bitmap,
    parse_rgb_effect_table_entry, parse_rgb_zone_count,
};
use halod_drivers::logitech::protocols::hidpp::v2::rgb::per_key::{
    encode_per_key_batch, encode_per_key_commit, encode_per_key_set_range,
};
use halod_drivers::rgb::{EffectParam, EffectParamValue, RgbColor};

fn color_param(name: &str, r: u8, g: u8, b: u8) -> EffectParam {
    EffectParam {
        name: name.to_string(),
        value: EffectParamValue::Color(RgbColor { r, g, b }),
    }
}

fn number_param(name: &str, thousandths: i64) -> EffectParam {
    EffectParam {
        name: name.to_string(),
        value: EffectParamValue::Number(thousandths),
    }
}

#[test]
fn effects_native_effect_base_blocks_match_ghub_captures() {
    assert_eq!(
        find_native_effect("color_wave").unwrap().base,
        [0xff, 0x00, 0, 0, 0, 0, 0, 0, 0x88, 0x01, 0x64, 0x13, 0x01, 0, 0],
    );
    assert_eq!(
        find_native_effect("ripple").unwrap().base,
        [0xff, 0x03, 0x5e, 0x5e, 0x5e, 0xff, 0, 0, 0, 0x14, 0, 0, 0x01, 0, 0],
    );
    assert!(find_native_effect("nonexistent").is_none());
}

#[test]
fn effects_ripple_param_descriptors_decode_defaults_from_base() {
    let descs = find_native_effect("ripple").unwrap().param_descriptors();
    let by_id = |id: &str| descs.iter().find(|d| d.id == id).expect("param present");
    match &by_id("background").default {
        EffectParamValue::Color(c) => assert_eq!((c.r, c.g, c.b), (0x5e, 0x5e, 0x5e)),
        other => panic!("background default not a color: {other:?}"),
    }
    assert!(matches!(&by_id("rate").default, EffectParamValue::Number(v) if *v == 20_000));
    assert!(matches!(&by_id("saturation").default, EffectParamValue::Number(v) if *v == 100_000));
}

#[test]
fn effects_ripple_encode_overlays_param_values_and_clamps() {
    let ripple = find_native_effect("ripple").unwrap();
    let mut values = vec![
        color_param("background", 0x11, 0x22, 0x33),
        number_param("rate", 100_000),
        number_param("saturation", 0),
    ];
    let block = ripple.encode(&values);
    assert_eq!(&block[2..5], &[0x11, 0x22, 0x33], "background color bytes");
    assert_eq!(block[9], 100, "effect rate byte");
    assert_eq!(block[5], 0, "saturation 0%");

    values[1] = number_param("rate", 999_000);
    assert_eq!(ripple.encode(&values)[9], 200);
    assert_eq!(find_native_effect("color_wave").unwrap().encode(&[])[1], 0x00);
}

#[test]
fn effects_encode_set_effect_static_builds_ghub_static_block() {
    let block = encode_set_effect_static(
        0x03,
        0x02,
        RgbColor {
            r: 0x11,
            g: 0x22,
            b: 0x33,
        },
    );
    assert_eq!(
        block,
        [0x03, 0x02, 0x11, 0x22, 0x33, 0x64, 0x0B, 0xB8, 0x64, 0, 0, 0, 0x01, 0, 0],
    );
}

#[test]
fn effects_parse_rgb_zone_count_reads_byte_2_or_none() {
    assert_eq!(parse_rgb_zone_count(&[0x00, 0x00, 0x05]), Some(5));
    assert_eq!(parse_rgb_zone_count(&[0x00, 0x00]), None);
}

#[test]
fn effects_parse_rgb_effect_table_entry_reads_be_u16_or_none() {
    assert_eq!(
        parse_rgb_effect_table_entry(&[0, 0, 0x12, 0x34]),
        Some(0x1234)
    );
    assert_eq!(parse_rgb_effect_table_entry(&[0, 0, 0x12]), None);
}

#[test]
fn effects_parse_pk_led_bitmap_decodes_set_bits() {
    let bitmap = [0x02, 0x01, 0x00, 0x80];
    assert_eq!(parse_pk_led_bitmap(&bitmap), vec![1, 8, 31]);
}

#[test]
fn effects_parse_pk_led_bitmap_handles_short_input_without_panic() {
    assert_eq!(parse_pk_led_bitmap(&[]), Vec::<u8>::new());
    assert_eq!(parse_pk_led_bitmap(&[0x02]), vec![1]);
}

#[test]
fn rgb_effects_native_effect_base_blocks_match_ghub_captures() {
    assert_eq!(
        find_native_effect("color_wave").unwrap().base,
        [0xff, 0x00, 0, 0, 0, 0, 0, 0, 0x88, 0x01, 0x64, 0x13, 0x01, 0, 0],
    );
    assert_eq!(
        find_native_effect("ripple").unwrap().base,
        [0xff, 0x03, 0x5e, 0x5e, 0x5e, 0xff, 0, 0, 0, 0x14, 0, 0, 0x01, 0, 0],
    );
    assert!(find_native_effect("nonexistent").is_none());
}

#[test]
fn rgb_effects_ripple_param_descriptors_decode_defaults_from_base() {
    let descs = find_native_effect("ripple").unwrap().param_descriptors();
    let by_id = |id: &str| descs.iter().find(|d| d.id == id).expect("param present");
    match &by_id("background").default {
        EffectParamValue::Color(c) => assert_eq!((c.r, c.g, c.b), (0x5e, 0x5e, 0x5e)),
        other => panic!("background default not a color: {other:?}"),
    }
    assert!(matches!(&by_id("rate").default, EffectParamValue::Number(v) if *v == 20_000));
    assert!(matches!(&by_id("saturation").default, EffectParamValue::Number(v) if *v == 100_000));
}

#[test]
fn rgb_effects_ripple_encode_overlays_param_values_and_clamps() {
    let ripple = find_native_effect("ripple").unwrap();
    let mut values = vec![
        color_param("background", 0x11, 0x22, 0x33),
        number_param("rate", 100_000),
        number_param("saturation", 0),
    ];
    let block = ripple.encode(&values);
    assert_eq!(&block[2..5], &[0x11, 0x22, 0x33], "background color bytes");
    assert_eq!(block[9], 100, "effect rate byte");
    assert_eq!(block[5], 0, "saturation 0%");

    values[1] = number_param("rate", 999_000);
    assert_eq!(ripple.encode(&values)[9], 200);
    assert_eq!(find_native_effect("color_wave").unwrap().encode(&[])[1], 0x00);
}

#[test]
fn rgb_effects_encode_set_effect_static_builds_ghub_static_block() {
    let block = encode_set_effect_static(0x03, 0x02, RgbColor { r: 0x11, g: 0x22, b: 0x33 });
    assert_eq!(
        block,
        [0x03, 0x02, 0x11, 0x22, 0x33, 0x64, 0x0B, 0xB8, 0x64, 0, 0, 0, 0x01, 0, 0],
    );
}

#[test]
fn rgb_effects_parse_rgb_zone_count_reads_byte_2_or_none() {
    assert_eq!(parse_rgb_zone_count(&[0x00, 0x00, 0x05]), Some(5));
    assert_eq!(parse_rgb_zone_count(&[0x00, 0x00]), None);
}

#[test]
fn rgb_effects_parse_rgb_effect_table_entry_reads_be_u16_or_none() {
    assert_eq!(parse_rgb_effect_table_entry(&[0, 0, 0x12, 0x34]), Some(0x1234));
    assert_eq!(parse_rgb_effect_table_entry(&[0, 0, 0x12]), None);
}

#[test]
fn encode_per_key_batch_packs_four_byte_entries() {
    let pkt = encode_per_key_batch(&[(10, 1, 2, 3), (20, 4, 5, 6)], 0x01, 0x07);
    assert_eq!(pkt[2], 0x07, "sub_id = per-key feature index");
    assert_eq!(pkt[3], 0x11, "func 0x10 | SW id 0x01");
    assert_eq!(&pkt[4..12], &[10, 1, 2, 3, 20, 4, 5, 6]);
    assert!(pkt[12..].iter().all(|&b| b == 0), "unused entries stay zero");
}

#[test]
fn encode_per_key_batch_caps_at_four_entries() {
    let batch = [(1, 0, 0, 0), (2, 0, 0, 0), (3, 0, 0, 0), (4, 0, 0, 0), (5, 0, 0, 0)];
    let pkt = encode_per_key_batch(&batch, 0x01, 0x07);
    assert_eq!(&pkt[4..8], &[1, 0, 0, 0]);
    assert_eq!(&pkt[16..20], &[4, 0, 0, 0], "fifth entry dropped");
}

#[test]
fn encode_per_key_commit_targets_func_0x70() {
    let pkt = encode_per_key_commit(0x01, 0x07);
    assert_eq!(pkt[2], 0x07);
    assert_eq!(pkt[3], 0x71, "func 0x70 | SW id 0x01");
}

#[test]
fn encode_per_key_set_range_paints_full_range() {
    assert_eq!(
        encode_per_key_set_range(RgbColor { r: 0x11, g: 0x22, b: 0x33 }),
        [0x00, 0xFF, 0x11, 0x22, 0x33],
    );
}

#[test]
fn rgb_effects_parse_pk_led_bitmap_decodes_set_bits() {
    let bitmap = [0x02, 0x01, 0x00, 0x80];
    assert_eq!(parse_pk_led_bitmap(&bitmap), vec![1, 8, 31]);
}

#[test]
fn rgb_effects_parse_pk_led_bitmap_handles_short_input_without_panic() {
    assert_eq!(parse_pk_led_bitmap(&[]), Vec::<u8>::new());
    assert_eq!(parse_pk_led_bitmap(&[0x02]), vec![1]);
}

#[test]
fn saturation_rounds_to_the_nearest_byte() {
    let ripple = find_native_effect("ripple").unwrap();
    for (percent, byte) in [(0, 0), (10, 26), (30, 77), (50, 127), (70, 179), (90, 229), (100, 255)] {
        let values = [number_param("saturation", percent * 1000)];
        assert_eq!(ripple.encode(&values)[5], byte, "{percent}%");
    }
    let half = [number_param("saturation", 33_333)];
    assert_eq!(ripple.encode(&half)[5], 85);
}

#[test]
fn values_of_the_wrong_kind_are_passed_over() {
    let ripple = find_native_effect("ripple").unwrap();
    let values = [number_param("background", 5_000), color_param("rate", 1, 2, 3)];
    assert_eq!(ripple.encode(&values), ripple.base);
}
