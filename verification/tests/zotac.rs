//! ZOTAC graphics-card lighting.

use halod_drivers::rgb::{EffectParam, EffectParamValue, RgbColor, RgbState};
use halod_drivers::zotac::devices::spectra_gpu::{
    effect_by_id, effect_direction, effect_speed, SpectraError, ZotacSpectraGpu, DEFAULT_SPEED,
    EFFECTS, FULL_BRIGHTNESS,
};
use halod_drivers::zotac::protocols::spectra_blackwell::{
    Direction, Mode, ZoneFrame, ZotacBlackwellProtocol, COMMIT_VAL, REG_COMMIT, ZOTAC_ADDR,
};

fn color(r: u8, g: u8, b: u8) -> RgbColor {
    RgbColor { r, g, b }
}

fn param(name: &str, value: EffectParamValue) -> EffectParam {
    EffectParam { name: name.to_string(), value }
}

#[test]
fn regs_layout_matches_protocol() {
    let f = ZoneFrame {
        zone: 0x02,
        mode: Mode::Breathe,
        color1: color(0x11, 0x22, 0x33),
        color2: color(0x44, 0x55, 0x66),
        brightness: 100,
        speed: 50,
        direction: Direction::Right,
    };
    let r = f.to_regs();
    assert_eq!(r[0], 0x00, "0x20 fixed header");
    assert_eq!(r[1], 0x02, "0x21 zone");
    assert_eq!(r[2], 0x02, "0x22 mode = Breathe");
    assert_eq!(&r[3..6], &[0x11, 0x22, 0x33], "0x23-0x25 color1");
    assert_eq!(&r[6..9], &[0x44, 0x55, 0x66], "0x26-0x28 color2");
    assert_eq!(r[9], 100, "0x29 brightness");
    assert_eq!(r[10], 50, "0x2A speed");
    assert_eq!(r[11], 0x01, "0x2B direction = right");
    assert_eq!(&r[12..16], &[0, 0, 0, 0], "0x2C-0x2F reserved");
}

#[test]
fn mode_values_match_firestorm() {
    assert_eq!(Mode::Static.code(), 0x01);
    assert_eq!(Mode::Volta.code(), 0x22);
    assert_eq!(Mode::Prism.code(), 0x09);
    assert_eq!(Mode::Tandem.code(), 0x18);
}

#[test]
fn descriptor_has_three_zones() {
    let d = ZotacSpectraGpu::build_descriptor();
    assert_eq!(d.zones.len(), 3);
    let ids: Vec<&str> = d.zones.iter().map(|z| z.id).collect();
    assert_eq!(ids, vec!["logo", "side_bar", "infinity_mirror"]);
    for z in &d.zones {
        assert_eq!(z.led_count, 1, "each zone is a single LED");
    }
}

#[test]
fn descriptor_exposes_all_effects() {
    let d = ZotacSpectraGpu::build_descriptor();
    let ids: Vec<&str> = d.native_effects.iter().map(|e| e.id).collect();
    assert_eq!(ids.len(), EFFECTS.len());
    assert!(ids.contains(&"breathe"));
    assert!(ids.contains(&"volta"));
    assert!(!ids.contains(&"static"));
}

#[test]
fn effect_param_flags_drive_descriptor() {
    let d = ZotacSpectraGpu::build_descriptor();
    let by = |id: &str| d.native_effects.iter().find(|e| e.id == id).unwrap();
    let fade: Vec<&str> = by("fade").params.iter().map(|p| p.id).collect();
    assert_eq!(fade, vec!["speed"]);
    let glide: Vec<&str> = by("glide").params.iter().map(|p| p.id).collect();
    assert_eq!(glide, vec!["color", "speed", "direction"]);
    let prism: Vec<&str> = by("prism").params.iter().map(|p| p.id).collect();
    assert_eq!(prism, vec!["speed", "direction"]);
}

#[test]
fn effect_speed_reads_float_and_clamps() {
    let mut p = Vec::new();
    assert_eq!(effect_speed(&p), DEFAULT_SPEED);
    p = vec![param("speed", EffectParamValue::Number(80_000))];
    assert_eq!(effect_speed(&p), 80);
    p = vec![param("speed", EffectParamValue::Number(250_000))];
    assert_eq!(effect_speed(&p), 100);
}

#[test]
fn effect_direction_defaults_left() {
    let mut p = Vec::new();
    assert_eq!(effect_direction(&p), Direction::Left);
    p = vec![param("direction", EffectParamValue::Text("right".to_string()))];
    assert_eq!(effect_direction(&p), Direction::Right);
}

#[test]
fn unknown_effect_id_is_none() {
    assert!(effect_by_id("nope").is_none());
    assert!(effect_by_id("volta").is_some());
}

#[test]
fn frame_roundtrips_through_regs() {
    for (zone, right) in [(0u8, false), (1, true), (2, false)] {
        let direction = if right { Direction::Right } else { Direction::Left };
        let f = ZoneFrame {
            zone,
            mode: Mode::Static,
            color1: color(zone, 2, 3),
            color2: color(4, 5, 250),
            brightness: 30 + zone,
            speed: 90 - zone,
            direction,
        };
        let r = f.to_regs();
        assert_eq!((r[1], r[2]), (zone, Mode::Static.code()));
        assert_eq!((r[3], r[4], r[5]), (zone, 2, 3));
        assert_eq!((r[6], r[7], r[8]), (4, 5, 250));
        assert_eq!((r[9], r[10], r[11]), (30 + zone, 90 - zone, direction.code()));
    }
}

#[test]
fn every_zone_is_staged_and_committed() {
    let gpu = ZotacSpectraGpu::new(4, ZOTAC_ADDR);
    let writes = gpu.apply_state(&RgbState::Static { color: color(1, 2, 3) }).unwrap();
    let commits = writes
        .iter()
        .filter(|w| w.register == REG_COMMIT && w.value == COMMIT_VAL)
        .count();
    assert_eq!(commits, 3);
    assert_eq!(writes.len(), 3 * 17);
    assert_eq!((writes[9].register, writes[9].value), (0x29, FULL_BRIGHTNESS));
    assert!(gpu.apply_state(&RgbState::Engine).unwrap().is_empty());
    let unknown = RgbState::NativeEffect { id: "nope".to_string(), params: Vec::new() };
    assert_eq!(gpu.apply_state(&unknown).unwrap_err(), SpectraError::UnknownEffect);
    let volta = RgbState::NativeEffect { id: "volta".to_string(), params: Vec::new() };
    assert_eq!(gpu.apply_state(&volta).unwrap()[2].value, 0x22);
    assert_eq!(gpu.write_frame("logo", &[color(9, 8, 7)]).unwrap().len(), 17);
    assert_eq!(
        gpu.write_frame("nope", &[color(9, 8, 7)]).unwrap_err(),
        SpectraError::UnknownZone
    );
}

#[test]
fn the_controller_is_looked_for_on_the_card() {
    assert!(ZotacSpectraGpu::matches_smbus(true, ZOTAC_ADDR));
    assert!(!ZotacSpectraGpu::matches_smbus(false, ZOTAC_ADDR));
    assert!(!ZotacSpectraGpu::matches_smbus(true, ZOTAC_ADDR + 1));
    assert!(!ZotacBlackwellProtocol::detect(None));
    assert!(ZotacSpectraGpu::descriptor(false).zones.is_empty());
    assert_eq!(ZotacSpectraGpu::descriptor(true).zones.len(), 3);
    assert!(!ZotacSpectraGpu::new(4, ZOTAC_ADDR).debug_info_extra().is_empty());
}

#[test]
fn the_card_remembers_its_state() {
    let mut gpu = ZotacSpectraGpu::new(1, 0x4B);
    assert!(gpu.current_state().is_none());
    gpu.state_applied(RgbState::Engine);
    assert!(matches!(gpu.current_state(), Some(RgbState::Engine)));
}
