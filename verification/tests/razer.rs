//! Razer reports and mice.

use halod_drivers::razer::devices::mouse::{
    available_dpis, build_descriptor, led_positions, matches_hid, spec_for, MouseError, MouseSpec,
    RazerMouse, BASILISK_V3_PID, POLL_RATES,
};
use halod_drivers::razer::protocols::razer::dpi::{encode_dpi_xy, CLASS_DPI, ID_SET_DPI};
use halod_drivers::razer::protocols::razer::matrix::{
    custom_frame_args, RunTooLong, CLASS_EXT_MATRIX, CUSTOM_FRAME_DATA_SIZE, ID_CUSTOM_FRAME,
};
use halod_drivers::razer::protocols::razer::{
    build_report, Razer, BUF_LEN, RAZER_VID, VARSTORE,
};
use halod_drivers::rgb::{RgbColor, RgbState};

fn c(r: u8, g: u8, b: u8) -> RgbColor {
    RgbColor { r, g, b }
}

fn basilisk() -> MouseSpec {
    spec_for(BASILISK_V3_PID).expect("Basilisk V3 registered")
}

#[test]
fn report_has_report_id_and_field_offsets() {
    let buf = build_report(0x1F, 0x0F, 0x02, 0x06, &[0xAA, 0xBB]);
    assert_eq!(buf.len(), BUF_LEN);
    assert_eq!(buf[0], 0x00, "leading report id");
    assert_eq!(buf[1], 0x00, "status host→device");
    assert_eq!(buf[2], 0x1F, "transaction id");
    assert_eq!(buf[6], 0x06, "data_size");
    assert_eq!(buf[7], 0x0F, "command class");
    assert_eq!(buf[8], 0x02, "command id");
    assert_eq!(&buf[9..11], &[0xAA, 0xBB], "arguments");
}

#[test]
fn crc_is_xor_of_report_bytes_2_through_87() {
    let buf = build_report(0x3F, 0x04, 0x05, 0x07, &[0x01, 0x1B, 0x00]);
    let expected = buf[3..89].iter().fold(0u8, |c, &b| c ^ b);
    assert_eq!(buf[89], expected);
    let other = build_report(0x00, 0x04, 0x05, 0x07, &[0x01, 0x1B, 0x00]);
    assert_eq!(buf[89], other[89]);
}

#[test]
fn oversized_args_are_truncated_to_80() {
    let buf = build_report(0x1F, 0x0F, 0x03, 0x47, &[0x7Fu8; 200]);
    assert_eq!(buf.len(), BUF_LEN);
    assert_eq!(buf[89 - 1], 0x7F);
    assert_eq!(buf[90], 0x00);
}

#[test]
fn dpi_is_big_endian_x_then_y_after_storage() {
    assert_eq!(
        encode_dpi_xy(1800, 900),
        [VARSTORE, 0x07, 0x08, 0x03, 0x84, 0x00, 0x00]
    );
}

#[test]
fn dpi_report_shape() {
    let buf = build_report(
        0x1F,
        CLASS_DPI,
        ID_SET_DPI,
        0x07,
        &encode_dpi_xy(1600, 1600),
    );
    assert_eq!(buf[7], 0x04, "class");
    assert_eq!(buf[8], 0x05, "id");
    assert_eq!(buf[6], 0x07, "data_size");
    assert_eq!(&buf[9..14], &[VARSTORE, 0x06, 0x40, 0x06, 0x40]);
}

#[test]
fn custom_frame_args_layout() {
    let args = custom_frame_args(0, 0, &[c(1, 2, 3), c(4, 5, 6)]).unwrap();
    assert_eq!(args, vec![0, 0, 0, 0, 1, 1, 2, 3, 4, 5, 6]);
    assert_eq!(args.len(), 5 + 2 * 3);
}

#[test]
fn custom_frame_stop_col_tracks_count_and_start() {
    let args = custom_frame_args(2, 4, &[c(0, 0, 0); 3]).unwrap();
    assert_eq!(args[2], 2, "row");
    assert_eq!(args[3], 4, "start_col");
    assert_eq!(args[4], 6, "stop_col = start + count - 1");
}

#[test]
fn empty_frame_encodes_nothing() {
    assert!(custom_frame_args(0, 0, &[]).unwrap().is_empty());
}

#[test]
fn run_past_last_column_errors_instead_of_wrapping() {
    assert!(custom_frame_args(0, 250, &[c(0, 0, 0); 20]).is_err());
    assert_eq!(custom_frame_args(0, 250, &[c(0, 0, 0); 6]).unwrap()[4], 255);
}

#[test]
fn custom_frame_report_uses_class_0f_id_03_fixed_data_size() {
    let args = custom_frame_args(0, 0, &[c(9, 9, 9)]).unwrap();
    let buf = build_report(
        0x1F,
        CLASS_EXT_MATRIX,
        ID_CUSTOM_FRAME,
        CUSTOM_FRAME_DATA_SIZE,
        &args,
    );
    assert_eq!(buf[7], 0x0F);
    assert_eq!(buf[8], 0x03);
    assert_eq!(buf[6], 0x47);
    assert_eq!(&buf[9..14], &[0x00, 0x00, 0x00, 0x00, 0x00]);
    assert_eq!(&buf[14..17], &[9, 9, 9]);
}

#[test]
fn basilisk_v3_pid_resolves() {
    let spec = basilisk();
    assert_eq!(spec.name, "Basilisk V3");
    assert_eq!(spec.txid, 0x1F);
    assert_eq!(spec.led_count, 11);
    assert!(spec_for(0x0000).is_none());
}

#[test]
fn led_positions_span_unit_line() {
    let leds = led_positions(basilisk().led_count);
    assert_eq!(leds.len(), 11);
    let xs: Vec<f32> = leds.iter().map(|l| l.x_num as f32 / l.x_den as f32).collect();
    assert!(xs.iter().all(|x| (0.0..=1.0).contains(x)));
    assert!(leds.iter().all(|l| l.y_num as f32 / l.y_den as f32 == 0.5));
    assert!(leds.iter().enumerate().all(|(i, l)| l.id == i as u32));
    assert_eq!(*xs.first().unwrap(), 0.0);
    assert_eq!(*xs.last().unwrap(), 1.0);
}

#[test]
fn default_dpi_index_is_mid_step() {
    let spec = basilisk();
    let index = spec.dpi_steps.len() / 2;
    assert_eq!(spec.dpi_steps[index], 1600);
}

#[test]
fn poll_rates_carry_expected_wire_codes() {
    assert_eq!(
        POLL_RATES.iter().map(|p| p.0).collect::<Vec<_>>(),
        vec![0x01, 0x02, 0x08]
    );
}

#[test]
fn dpi_round_trips() {
    for (x, y) in [(0u16, 0u16), (1, 0xFFFF), (0x1234, 0xABCD), (26000, 100)] {
        let e = encode_dpi_xy(x, y);
        assert_eq!(u16::from_be_bytes([e[1], e[2]]), x);
        assert_eq!(u16::from_be_bytes([e[3], e[4]]), y);
    }
}

#[test]
fn stop_col_stays_within_u8_or_errors() {
    for start_col in 0u8..=255 {
        for count in [1usize, 2, 16, 255, 256, 257, 300] {
            let colors = vec![c(0, 0, 0); count];
            match custom_frame_args(0, start_col, &colors) {
                Ok(args) => {
                    assert!(start_col as usize + count - 1 <= u8::MAX as usize);
                    assert_eq!(args[3], start_col);
                    assert_eq!(args[4] as usize, start_col as usize + count - 1);
                }
                Err(e) => {
                    assert!(start_col as usize + count - 1 > u8::MAX as usize);
                    assert_eq!(e, RunTooLong { start_col, count });
                }
            }
        }
    }
}

#[test]
fn lighting_and_polling_reports() {
    let razer = Razer::with_transport(0x1F);
    let poll = razer.set_polling_rate(0x02);
    assert_eq!((poll[6], poll[7], poll[8], poll[9]), (0x01, 0x00, 0x05, 0x02));
    let enable = razer.enable_custom_frame();
    assert_eq!((enable[7], enable[8]), (0x0F, 0x02));
    let bright = razer.set_brightness(0x00, 0x80);
    assert_eq!((bright[7], bright[8], bright[11]), (0x0F, 0x04, 0x80));
    assert_eq!(razer.set_custom_frame(0, 0, &[]).unwrap(), None);
    assert!(razer.set_custom_frame(0, 200, &[c(0, 0, 0); 100]).is_err());
}

fn mouse() -> RazerMouse {
    RazerMouse::new("m".to_string(), None, basilisk())
}

#[test]
fn steps_stay_in_range() {
    let mut m = mouse();
    assert_eq!(m.dpi.current, 1600);
    assert_eq!(m.clamp_dpi(1), m.spec.dpi_min);
    assert_eq!(m.clamp_dpi(u16::MAX), m.spec.dpi_max);
    m.set_dpi_steps(&[1, 3200, u16::MAX]);
    assert_eq!(m.dpi.steps, vec![m.spec.dpi_min, 3200, m.spec.dpi_max]);
    let report = m.set_dpi_index(1).unwrap();
    assert_eq!(&report[9..14], &encode_dpi_xy(3200, 3200)[..5]);
    assert_eq!(m.dpi_status().current_dpi, 3200);
    assert_eq!(m.set_dpi_index(9).unwrap_err(), MouseError::IndexOutOfRange { index: 9 });
    m.set_dpi_direct(800);
    assert_eq!(m.dpi.current, 800);
}

#[test]
fn the_polling_rate_is_a_choice() {
    let mut m = mouse();
    let wire = m.to_wire();
    assert_eq!(wire.options.len(), 3);
    let report = m.set_choice(wire.key, 1).unwrap();
    assert_eq!(report[9], POLL_RATES[1].0);
    assert_eq!(m.poll_rate, POLL_RATES[1].0);
    assert_eq!(m.set_choice("nothing", 0).unwrap_err(), MouseError::UnknownKey);
    assert_eq!(m.set_choice(wire.key, 3).unwrap_err(), MouseError::IndexOutOfRange { index: 3 });
}

#[test]
fn frames_fit_one_report() {
    let m = mouse();
    let solid = m.apply_state(&RgbState::Static { color: c(1, 2, 3) }).unwrap().unwrap();
    assert_eq!((solid[13], &solid[14..17]), (10, &[1u8, 2, 3][..]));
    assert!(m.apply_state(&RgbState::Engine).unwrap().is_none());
    assert_eq!(
        m.write_frame("nothing", &[c(0, 0, 0)]).unwrap_err(),
        MouseError::UnknownZone
    );
    assert_eq!(build_descriptor(&m.spec).zones[0].led_count, 11);
}

#[test]
fn speeds_are_offered_in_even_steps() {
    let dpis = available_dpis(100, 400);
    assert_eq!((dpis.first(), dpis.last()), (Some(&100), Some(&400)));
    assert!(dpis.windows(2).all(|w| w[1] > w[0]));
    assert!(!matches_hid(RAZER_VID, 0x0000, Some(3), 0x01, 0x02));
}

#[test]
fn the_mouse_remembers_its_state() {
    let mut m = mouse();
    assert!(m.current_state().is_none());
    m.state_applied(RgbState::Static { color: c(1, 2, 3) });
    m.set_dpi_direct(800);
    assert!(matches!(m.current_state(), Some(RgbState::Static { color }) if *color == c(1, 2, 3)));
}
