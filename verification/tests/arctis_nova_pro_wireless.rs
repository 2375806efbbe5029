//! The Arctis Nova Pro Wireless.

use halod_drivers::steelseries::devices::arctis_nova_pro_wireless::{
    apply_choice_to_status, apply_poll, build_batteries, build_booleans, build_equalizer,
    build_ranges, dispatch_chatmix, eq_preset_byte, eq_preset_index, eq_preset_options,
    matches_hid, nc_mode_options, restores_choice, restores_range, station_volume_percent,
    ArctisNovaProWireless, ArctisStatus, HeadsetError, BT_VARIANT_PIDS, EQ_CURVES,
    EQ_CUSTOM_BYTE, EQ_PRESETS, STATION_VOL_FLOOR_DB, SUPPRESS_MS,
};
use halod_drivers::steelseries::protocols::steelseries_arctis::{
    ArctisChatMixFields, ArctisProtocol, Msg, POWER_CHARGING, POWER_OFFLINE, POWER_ONLINE,
    REPORT_CMD, REPORT_NOTIFY,
};
use halod_drivers::types::{BatteryStatus, VisibleWhen};

fn default_status() -> ArctisStatus {
    ArctisStatus::new(0)
}

#[test]
fn build_ranges_gates_transparency_level_on_transparent_anc() {
    let ranges = build_ranges(&default_status());
    let nc_level = ranges.iter().find(|r| r.key == "nc_level").unwrap();
    assert_eq!(
        nc_level.visible_when,
        Some(VisibleWhen {
            key: "nc_mode",
            equals: vec![1],
        })
    );
    assert!(ranges
        .iter()
        .filter(|r| r.key != "nc_level")
        .all(|r| r.visible_when.is_none()));
}

#[test]
fn eq_preset_options_flags_custom_and_firmware() {
    let opts = eq_preset_options();
    for (i, o) in opts.iter().enumerate() {
        let (byte, _) = EQ_PRESETS[i];
        let is_custom = byte == EQ_CUSTOM_BYTE;
        assert_eq!(o.is_custom, is_custom, "{}", o.label);
        assert_eq!(o.is_firmware, !is_custom, "{}", o.label);
        assert_eq!(o.bands.is_some(), !is_custom, "{}", o.label);
    }
    assert_eq!(opts.iter().filter(|o| o.is_custom).count(), 1);
    assert!(opts.iter().find(|o| o.is_custom).unwrap().bands.is_none());
}

#[test]
fn build_equalizer_shows_preset_bands_and_editability() {
    let custom = [1_000; 10];
    let eq = build_equalizer(EQ_CUSTOM_BYTE, &custom);
    assert!(eq.editable);
    assert!(eq.bands.iter().all(|b| b.value == 1_000));
    let flat = build_equalizer(0x00, &custom);
    assert!(flat.editable);
    assert!(flat.bands.iter().all(|b| b.value == 0));
    let unknown = build_equalizer(0x99, &custom);
    assert_eq!(unknown.selected_preset, eq_preset_index(EQ_CUSTOM_BYTE));
    assert!(unknown.editable);
    assert!(unknown.bands.iter().all(|b| b.value == 1_000));
}

#[test]
fn build_batteries_reflects_power_status() {
    let mut s = default_status();
    s.headset_battery = 80;
    s.slot_battery = 55;
    s.power_status = POWER_OFFLINE;
    let b = build_batteries(&s);
    assert_eq!(b.len(), 2);
    assert_eq!(b[0].key, "headset");
    assert_eq!(b[0].level, 0);
    assert_eq!(b[0].status, BatteryStatus::Unknown);
    assert_eq!(b[1].key, "slot");
    assert_eq!(b[1].level, 55);
    s.power_status = POWER_ONLINE;
    let b = build_batteries(&s);
    assert_eq!(b[0].level, 80);
    assert_eq!(b[0].status, BatteryStatus::Discharging);
    s.power_status = POWER_CHARGING;
    assert_eq!(build_batteries(&s)[0].status, BatteryStatus::Charging);
}

#[test]
fn station_volume_percent_inverts_signed_db() {
    assert_eq!(station_volume_percent(0x00), 100);
    assert_eq!(
        station_volume_percent((STATION_VOL_FLOOR_DB as i8) as u8),
        0
    );
    assert_eq!(station_volume_percent(0xC9), 1);
    assert_eq!(station_volume_percent(0x80), 0);
}

#[test]
fn build_booleans_omits_bluetooth_on_non_bt_variant() {
    let s = default_status();
    let b = build_booleans(&s, false);
    assert_eq!(b.len(), 1);
    assert_eq!(b[0].key, "mic_active");
}

#[test]
fn build_booleans_adds_bluetooth_on_bt_variant() {
    let mut s = default_status();
    s.bt_connection = 1;
    s.bt_auto_mute = 1;
    let b = build_booleans(&s, true);
    assert_eq!(b.len(), 3);
    let conn = b.iter().find(|x| x.key == "bt_connection").unwrap();
    assert!(conn.value);
    assert!(conn.read_only);
    assert_eq!(conn.category, "Bluetooth");
    let mute = b.iter().find(|x| x.key == "bt_auto_mute").unwrap();
    assert!(mute.value);
}

#[test]
fn bt_variant_pids_match_x_base_stations() {
    assert!(BT_VARIANT_PIDS.contains(&0x12E5));
    assert!(BT_VARIANT_PIDS.contains(&0x225D));
    assert!(!BT_VARIANT_PIDS.contains(&0x12E0));
}

#[test]
fn nc_mode_options_match_documented_wire_values() {
    let options = nc_mode_options();
    assert_eq!(options[0].id, "0");
    assert_eq!(options[0].label, "Off");
    assert_eq!(options[1].id, "1");
    assert_eq!(options[1].label, "Transparent");
    assert_eq!(options[2].id, "2");
    assert_eq!(options[2].label, "Noise Cancelling");
}

#[test]
fn apply_choice_to_status_nc_mode() {
    let mut s = default_status();
    apply_choice_to_status("nc_mode", 2, &mut s);
    assert_eq!(s.nc_mode, 2);
}

#[test]
fn apply_choice_to_status_nc_mode_clamps_above_2() {
    let mut s = default_status();
    apply_choice_to_status("nc_mode", 99, &mut s);
    assert_eq!(s.nc_mode, 2);
}

#[test]
fn apply_choice_to_status_sidetone() {
    let mut s = default_status();
    apply_choice_to_status("sidetone", 3, &mut s);
    assert_eq!(s.sidetone, 3);
}

#[test]
fn apply_choice_to_status_sidetone_clamps_above_3() {
    let mut s = default_status();
    apply_choice_to_status("sidetone", 99, &mut s);
    assert_eq!(s.sidetone, 3);
}

#[test]
fn apply_choice_to_status_wireless_mode() {
    let mut s = default_status();
    apply_choice_to_status("wireless_mode", 1, &mut s);
    assert_eq!(s.wireless_mode, 1);
}

#[test]
fn apply_choice_to_status_wireless_mode_clamps_above_1() {
    let mut s = default_status();
    apply_choice_to_status("wireless_mode", 5, &mut s);
    assert_eq!(s.wireless_mode, 1);
}

#[test]
fn apply_choice_to_status_gain() {
    let mut s = default_status();
    apply_choice_to_status("gain", 1, &mut s);
    assert_eq!(s.gain, 1);
}

#[test]
fn apply_choice_to_status_gain_clamps_above_1() {
    let mut s = default_status();
    apply_choice_to_status("gain", 9, &mut s);
    assert_eq!(s.gain, 1);
}

#[test]
fn apply_choice_to_status_auto_off() {
    let mut s = default_status();
    apply_choice_to_status("auto_off", 4, &mut s);
    assert_eq!(s.auto_off_raw, 4);
}

#[test]
fn apply_choice_to_status_auto_off_clamps_above_6() {
    let mut s = default_status();
    apply_choice_to_status("auto_off", 99, &mut s);
    assert_eq!(s.auto_off_raw, 6);
}

#[test]
fn apply_choice_to_status_sonar_eq() {
    let mut s = default_status();
    apply_choice_to_status("sonar_eq", 1, &mut s);
    assert_eq!(s.sonar_eq, 1);
}

#[test]
fn apply_choice_to_status_screen_mode() {
    let mut s = default_status();
    apply_choice_to_status("screen_mode", 1, &mut s);
    assert_eq!(s.screen_mode, 1);
}

#[test]
fn apply_choice_to_status_unknown_key_is_no_op() {
    let mut s = default_status();
    s.nc_mode = 2;
    apply_choice_to_status("totally_unknown", 1, &mut s);
    assert_eq!(s.nc_mode, 2);
    assert_eq!(s.sidetone, 0);
}

#[test]
fn eq_save_state_null_before_any_set() {
    let headset = ArctisNovaProWireless::new(0x12E0, 0, 0);
    assert!(headset.current_state().is_none(), "nothing to save before any set");
}

#[test]
fn eq_cache_save_roundtrip_preset_only() {
    let mut headset = ArctisNovaProWireless::new(0x12E0, 0, 0);
    assert_eq!(headset.set_eq_preset(2), vec![REPORT_CMD, 0x2e, 2]);
    headset.eq_preset_written(2);
    let saved = headset.current_state().unwrap();
    assert_eq!(saved.selected_preset, 2);
    assert_eq!(saved.bands.len(), 10);
}

#[test]
fn eq_cache_save_roundtrip_with_bands() {
    let bands = [1_000, -1_000, 2_500, 0, -3_000, 4_000, 500, -500, 3_500, -2_000];
    let mut headset = ArctisNovaProWireless::new(0x12E0, 0, 0);
    let (select, write) = headset.set_eq_bands(&bands).unwrap();
    assert_eq!(select, vec![REPORT_CMD, 0x2e, EQ_CUSTOM_BYTE]);
    assert_eq!(write, vec![REPORT_CMD, 0x33, 22, 18, 25, 20, 14, 28, 21, 19, 27, 16]);
    headset.eq_bands_written(&bands);
    let saved = headset.current_state().unwrap();
    assert_eq!(saved.bands[0].value, 1_000);
    assert_eq!(saved.bands[2].value, 2_500);
    assert_eq!(saved.selected_preset, 4);
}

#[test]
fn curves_have_ten_bands() {
    let headset = ArctisNovaProWireless::new(0x12E0, 0, 0);
    assert_eq!(headset.set_eq_bands(&[0; 9]).unwrap_err(), HeadsetError::BandCount { got: 9 });
}

#[test]
fn presets_round_trip_through_their_byte() {
    for i in 0..12 {
        assert_eq!(eq_preset_index(eq_preset_byte(i)), i);
    }
    assert_eq!(eq_preset_byte(50), EQ_CUSTOM_BYTE);
    assert_eq!(build_equalizer(0x10, &[0; 10]).bands[5].value, EQ_CURVES[11][5]);
}

#[test]
fn selections_are_sent_and_remembered() {
    let mut headset = ArctisNovaProWireless::new(0x12E5, 3, 0);
    assert_eq!(headset.id, "steelseries_arctis_3");
    assert!(headset.bt_variant);
    assert_eq!(headset.set_choice("gain", 7).unwrap(), vec![REPORT_CMD, 0x27, 2]);
    assert_eq!(headset.status.gain, 1);
    assert_eq!(headset.set_choice("auto_off", 300).unwrap(), vec![REPORT_CMD, 0xc1, 6]);
    assert_eq!(headset.set_choice("none", 0).unwrap_err(), HeadsetError::UnknownKey);
    let w = headset.set_range("mic_volume", 40).unwrap();
    assert_eq!((w.value, &w.packet), (10, &vec![REPORT_CMD, 0x37, 10]));
    headset.range_written(&w);
    assert_eq!(headset.status.mic_volume, 10);
    let w = headset.set_range("mic_led_brightness", 0).unwrap();
    assert_eq!((w.value, w.packet), (10, vec![REPORT_CMD, 0xbf, 1]));
    assert_eq!(headset.set_range("none", 0).unwrap_err(), HeadsetError::UnknownKey);
    assert_eq!(headset.set_boolean("mic_active", true).unwrap_err(), HeadsetError::ReadOnly);
    assert!(restores_choice("sonar_eq") && !restores_choice("gain"));
    assert!(restores_range("mic_volume") && !restores_range("nc_level"));
}

#[test]
fn a_change_holds_polling_back() {
    let mut headset = ArctisNovaProWireless::new(0x12E0, 0, 100);
    assert!(!headset.suppressed(100));
    headset.suppress(100);
    assert!(headset.suppressed(100 + SUPPRESS_MS - 1));
    assert!(!headset.suppressed(100 + SUPPRESS_MS));
}

#[test]
fn a_poll_is_taken_over() {
    let mut s = default_status();
    let mut status = vec![0u8; 64];
    status[0] = REPORT_CMD;
    status[1] = Msg::Status.id();
    status[0x06] = 4;
    status[0x0F] = POWER_ONLINE;
    let proto = ArctisProtocol::new();
    let volumes = apply_poll(
        &mut s,
        proto.poll(
            &[
                status,
                vec![REPORT_NOTIFY, Msg::MicVolume.id(), 7],
                vec![REPORT_NOTIFY, Msg::StationVolume.id(), 0xF2],
                vec![REPORT_NOTIFY, Msg::ChatMix.id(), 80, 60],
            ],
            true,
        ),
    );
    assert_eq!((s.headset_battery, s.power_status, s.mic_volume), (50, POWER_ONLINE, 7));
    assert_eq!(s.station_volume, 75);
    assert!(s.polled);
    assert_eq!(volumes.len(), 1);
    dispatch_chatmix(&mut s, &ArctisChatMixFields { game: 80, chat: 60 });
    let ranges = build_ranges(&s);
    assert_eq!(ranges.iter().find(|r| r.key == "chatmix").map(|r| r.value), Some(40));
}

#[test]
fn louder_stations_have_higher_percentages() {
    for db in -56i8..0 {
        assert!(station_volume_percent(db as u8) <= station_volume_percent((db + 1) as u8));
    }
}

#[test]
fn only_the_command_interface_is_taken() {
    assert!(matches_hid(0x1038, 0x12E0, Some(4)));
    assert!(!matches_hid(0x1038, 0x12E0, Some(3)));
    assert!(!matches_hid(0x1038, 0x12E0, None));
    assert!(!matches_hid(0x1038, 0x0001, Some(4)));
    let headset = ArctisNovaProWireless::new(0x12E0, 0, 0);
    let (media, chat) = headset.sink_names();
    assert_eq!(media, format!("SteelSeries {} Media", headset.model_name));
    assert_eq!(chat, format!("SteelSeries {} Chat", headset.model_name));
}

#[test]
fn a_headset_starts_with_assumptions() {
    let headset = ArctisNovaProWireless::new(0x12E0, 0, 5);
    let s = &headset.status;
    assert_eq!((s.mic_volume, s.station_volume, s.mic_led_brightness), (10, 100, 100));
    assert_eq!((s.chatmix_game, s.chatmix_chat, s.suppress_until_ms), (100, 100, 5));
    assert!(!s.polled && !s.mic_muted);
}
