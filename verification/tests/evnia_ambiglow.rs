//! The Ambiglow strip of the Evnia 49.

use halod_drivers::philips::devices::evnia_49_ambiglow::{
    ambiglow_positions, build_descriptor, build_frame, colors_from_state, is_monitor_release,
    AmbiglowAction, PhilipsEvniaAmbiglow, BASELINE_REGION, CAPTURE_BLOCK, CONTROL_BLOCKS,
    FRAME_SETTLE_MS, LAYOUT_UNITS, LED_COUNT, MONITOR_EFFECT, ZONE_ID,
};
use halod_drivers::philips::protocols::philips_evnia::DdcError;
use halod_drivers::rgb::{RgbColor, RgbState, ZoneLeds, ZoneTopology};

/// A position as a fraction of the strip.
fn fraction(units: u32) -> f32 {
    units as f32 / LAYOUT_UNITS as f32
}

#[test]
fn descriptor_has_one_zone_of_44_leds() {
    let d = build_descriptor();
    assert_eq!(d.zones.len(), 1);
    assert_eq!(d.zones[0].id, ZONE_ID);
    assert_eq!(d.zones[0].led_count as usize, LED_COUNT);
    assert!(matches!(d.zones[0].topology, ZoneTopology::Grid));
}

#[test]
fn descriptor_exposes_monitor_release_effect() {
    let d = build_descriptor();
    let e = d
        .native_effects
        .iter()
        .find(|e| e.id == MONITOR_EFFECT)
        .expect("monitor release effect must be exposed");
    assert!(e.params.is_empty(), "monitor release takes no parameters");
}

#[test]
fn monitor_native_effect_is_a_release() {
    assert!(is_monitor_release(&RgbState::NativeEffect {
        id: MONITOR_EFFECT.into(),
        params: Vec::new(),
    }));
    assert!(!is_monitor_release(&RgbState::NativeEffect {
        id: "something_else".into(),
        params: Vec::new(),
    }));
    assert!(!is_monitor_release(&RgbState::Static {
        color: RgbColor { r: 1, g: 2, b: 3 }
    }));
}

#[test]
fn positions_cover_every_led_in_order_within_bounds() {
    let leds = ambiglow_positions();
    assert_eq!(leds.len(), LED_COUNT);
    for (i, led) in leds.iter().enumerate() {
        assert_eq!(led.id, i as u32, "LED ids must be contiguous and ordered");
        assert!((0.0..=1.0).contains(&fraction(led.x)), "x out of range: {}", led.x);
        assert!((0.0..=1.0).contains(&fraction(led.y)), "y out of range: {}", led.y);
    }
}

#[test]
fn positions_match_documented_geometry() {
    let leds: Vec<(f32, f32)> =
        ambiglow_positions().iter().map(|l| (fraction(l.x), fraction(l.y))).collect();
    assert!(leds[0].0 > 0.9 && (leds[0].1 - 1.0).abs() < f32::EPSILON);
    assert!(leds[3].0 > 0.9 && leds[3].1.abs() < f32::EPSILON);
    assert!(leds[20].0 < 0.1 && leds[20].1.abs() < f32::EPSILON);
    assert!(leds[23].0 < 0.1 && (leds[23].1 - 1.0).abs() < f32::EPSILON);
    assert!(leds[4..20].iter().all(|l| l.1.abs() < f32::EPSILON));
    assert!(leds[24..44]
        .iter()
        .all(|l| (l.0 - 0.5).abs() < f32::EPSILON));
}

#[test]
fn settle_remaining_none_without_a_frame() {
    let dev = PhilipsEvniaAmbiglow::new();
    assert!(dev.settle_remaining(1000).is_none());
}

#[test]
fn settle_remaining_some_right_after_a_frame() {
    let mut dev = PhilipsEvniaAmbiglow::new();
    dev.last_frame_ms = Some(1000);
    let remaining = dev
        .settle_remaining(1000)
        .expect("just-written frame must settle");
    assert!(remaining <= FRAME_SETTLE_MS);
}

#[test]
fn frame_is_rgb_order_and_132_bytes() {
    let red = RgbColor {
        r: 0xff,
        g: 0,
        b: 0,
    };
    let buf = build_frame(&[red; LED_COUNT]);
    assert_eq!(buf.len(), LED_COUNT * 3);
    assert_eq!(&buf[..3], &[0xff, 0x00, 0x00]);
    assert_eq!(&buf[129..], &[0xff, 0x00, 0x00]);
}

#[test]
fn frame_pads_short_list_with_black() {
    let green = RgbColor {
        r: 0,
        g: 0xff,
        b: 0,
    };
    let buf = build_frame(&[green]);
    assert_eq!(&buf[..3], &[0x00, 0xff, 0x00]);
    assert!(buf[3..].iter().all(|&b| b == 0));
}

#[test]
fn frame_truncates_overlong_list() {
    let buf = build_frame(&[RgbColor { r: 1, g: 2, b: 3 }; LED_COUNT + 10]);
    assert_eq!(buf.len(), LED_COUNT * 3);
}

#[test]
fn capture_and_baseline_sizes_match_reference() {
    assert_eq!(CAPTURE_BLOCK.len(), 16);
    assert_eq!(BASELINE_REGION.len(), 64);
    assert_eq!(CONTROL_BLOCKS, [0xE020, 0xE030]);
}

#[test]
fn static_state_fills_every_led() {
    let pink = RgbColor {
        r: 0xff,
        g: 0x40,
        b: 0x80,
    };
    let cs = colors_from_state(&RgbState::Static { color: pink }).unwrap();
    assert_eq!(cs.len(), LED_COUNT);
    assert!(cs.iter().all(|&c| c == pink));
}

#[test]
fn per_led_state_maps_indices() {
    let red = RgbColor {
        r: 0xff,
        g: 0,
        b: 0,
    };
    let blue = RgbColor {
        r: 0,
        g: 0,
        b: 0xff,
    };
    let leds = vec![(0, red), (43, blue)];
    let zones = vec![ZoneLeds { zone: ZONE_ID.to_string(), leds }];
    let cs = colors_from_state(&RgbState::PerLed { zones }).unwrap();
    assert_eq!(cs[0], red);
    assert_eq!(cs[43], blue);
    assert_eq!(cs[1], RgbColor { r: 0, g: 0, b: 0 });
}

#[test]
fn engine_and_effect_states_drive_no_frame() {
    assert!(colors_from_state(&RgbState::Engine).is_none());
    assert!(colors_from_state(&RgbState::NativeEffect {
        id: "x".into(),
        params: Vec::new()
    })
    .is_none());
}

const WHITE: RgbColor = RgbColor { r: 255, g: 255, b: 255 };

#[test]
fn the_first_frame_captures_the_strip() {
    let mut dev = PhilipsEvniaAmbiglow::new();
    assert_eq!(dev.id, "philips_evnia_ambiglow_0cf2_b201");
    assert_eq!(dev.ensure_capture().unwrap_err(), DdcError::NotConnected);
    assert_eq!(dev.write_colors(&[WHITE]).unwrap_err(), DdcError::NotConnected);
    dev.protocol.open();
    let writes = dev.write_colors(&[WHITE]).unwrap();
    assert_eq!(writes.len(), 3);
    assert_eq!((writes[0].index, &writes[0].data[..]), (CONTROL_BLOCKS[0], &CAPTURE_BLOCK[..]));
    assert_eq!((writes[1].index, &writes[1].data[..]), (CONTROL_BLOCKS[1], &CAPTURE_BLOCK[..]));
    assert_eq!((writes[2].index, &writes[2].data[..]), (0xE100, &build_frame(&[WHITE])[..]));
    dev.colors_written(1, 5);
    assert!(!dev.captured && dev.last_frame_ms.is_none());
    dev.colors_written(3, 5);
    assert!(dev.close_releases());
    assert_eq!(dev.last_frame_ms, Some(5));
    assert_eq!(dev.write_colors(&[WHITE]).unwrap().len(), 1);
    assert!(dev.write_frame("other", &[WHITE]).unwrap().is_empty());
    assert_eq!(dev.write_frame(ZONE_ID, &[WHITE]).unwrap().len(), 1);
}

#[test]
fn a_release_waits_and_hands_the_strip_back() {
    let mut dev = PhilipsEvniaAmbiglow::new();
    assert_eq!(dev.release().unwrap_err(), DdcError::NotConnected);
    dev.protocol.open();
    dev.captured = true;
    dev.last_frame_ms = Some(100);
    let release = RgbState::NativeEffect { id: MONITOR_EFFECT.to_string(), params: Vec::new() };
    assert!(matches!(dev.set_state(&release), AmbiglowAction::Release));
    assert_eq!(dev.settle_remaining(104), Some(6));
    assert_eq!(dev.settle_remaining(111), None);
    let w = dev.release().unwrap();
    assert_eq!((w.index, &w.data[..]), (0xE020, &BASELINE_REGION[..]));
    dev.released();
    assert!(!dev.close_releases());
    assert!(matches!(dev.set_state(&RgbState::Engine), AmbiglowAction::Nothing));
    let solid = dev.set_state(&RgbState::Static { color: WHITE });
    assert!(matches!(solid, AmbiglowAction::Write(c) if c.len() == LED_COUNT));
}

#[test]
fn the_strip_remembers_its_state() {
    let mut strip = PhilipsEvniaAmbiglow::new();
    assert!(strip.current_state().is_none());
    strip.state_applied(RgbState::Engine);
    strip.released();
    assert!(matches!(strip.current_state(), Some(RgbState::Engine)));
}

#[test]
fn nothing_is_left_once_the_settling_time_has_elapsed() {
    let mut dev = PhilipsEvniaAmbiglow::new();
    dev.last_frame_ms = Some(1000);
    assert_eq!(dev.settle_remaining(1000 + FRAME_SETTLE_MS - 1), Some(1));
    assert_eq!(dev.settle_remaining(1000 + FRAME_SETTLE_MS), None);
}
