//! The fan hub, its fans and the coolers.

use halod_drivers::nzxt::devices::control_hub::{ChannelError, NZXTControlHub};
use halod_drivers::nzxt::devices::f_fan::{recognizes, FanError, NZXTFFan};
use halod_drivers::nzxt::devices::kraken::{
    kraken_profile, matches_hid, ImagePath, KrakenCapability, NZXTKraken, RestorePlan, KRAKEN_VID,
};
use halod_drivers::nzxt::protocols::nzxt::AccessoryInfo;
use halod_drivers::rgb::{RgbColor, RgbState, ZoneLeds, ZoneTopology};
use halod_drivers::types::{DeviceCapability, DeviceType, ScreenShape, VisibilityState};

fn fan(accessory_id: u8) -> NZXTFFan {
    fan_on_channel(0, accessory_id)
}

fn fan_on_channel(channel: u8, accessory_id: u8) -> NZXTFFan {
    NZXTFFan::new(channel, accessory_id, "nzxt_hub_ABC123")
}

#[test]
fn serialize_fields() {
    let fan = fan_on_channel(3, 0x14);
    let w = fan.serialize(1200, 50, true);
    assert_eq!(w.id, "nzxt_f_fan_nzxt_hub_ABC123_3");
    assert_eq!(w.vendor, "NZXT");
    assert_eq!(w.name, "F140 RGB");
    assert!(matches!(w.device_type, DeviceType::Fan));
    assert!(w.connected);
}

#[test]
fn serialize_includes_fan_capability() {
    let fan = fan(0x13);
    let w = fan.serialize(1200, 50, true);
    let fan_cap = w
        .capabilities
        .iter()
        .find(|c| matches!(c, DeviceCapability::Fan(_)));
    assert!(fan_cap.is_some(), "expected Fan capability");
    if let Some(DeviceCapability::Fan(status)) = fan_cap {
        assert_eq!(status.channel, 0);
        assert_eq!(status.rpm, 1200);
        assert_eq!(status.duty, 50);
        assert!(status.controllable);
    }
}

#[test]
fn serialize_includes_rgb_capability() {
    let fan = fan(0x13);
    let w = fan.serialize(1200, 50, true);
    assert!(
        w.capabilities
            .iter()
            .any(|c| matches!(c, DeviceCapability::Rgb(_))),
        "expected Rgb capability"
    );
}

#[test]
fn descriptor_returns_ring_zone_with_correct_led_count() {
    for (accessory_id, expected_leds, expected_fans) in
        [(0x13u8, 8usize, 1u8), (0x1Bu8, 16, 2), (0x1Du8, 24, 3)]
    {
        let fan = fan(accessory_id);
        let desc = &fan.rgb_descriptor;
        assert_eq!(desc.zones.len(), 1);
        assert_eq!(desc.zones[0].id, "ring");
        assert_eq!(desc.zones[0].led_count as usize, expected_leds);
        match (&desc.zones[0].topology, expected_fans) {
            (ZoneTopology::Ring, 1) => {}
            (ZoneTopology::Rings { count }, n) => assert_eq!(*count, n),
            (topo, fans) => panic!("unexpected topology {topo:?} for fan_count={fans}"),
        }
    }
}

#[test]
fn profile_for_unknown_pid_falls_back_to_z63() {
    let p = kraken_profile(0x0000);
    assert_eq!(p.model_name, "Kraken Z53/63/73");
}

#[test]
fn x3_descriptor_has_8_led_ring_and_logo_zone() {
    let desc = NZXTKraken::build_rgb_descriptor(0x2007);
    assert_eq!(desc.zones.len(), 2);
    assert_eq!(desc.zones[0].id, "ring");
    assert_eq!(desc.zones[0].led_count, 8);
    assert_eq!(desc.zones[1].id, "logo");
    assert_eq!(desc.zones[1].led_count, 1);
}

#[test]
fn lcd_size_for_unknown_pid_falls_back_to_z63() {
    assert_eq!(NZXTKraken::lcd_size_for(0xFFFF), (320, 320));
}

#[test]
fn build_lcd_descriptor_circle_shape_and_four_rotations() {
    let desc = NZXTKraken::build_lcd_descriptor(0x3008);
    assert_eq!(desc.shape, ScreenShape::Circle);
    assert_eq!(desc.supported_rotations, vec![0, 90, 180, 270]);
    assert_eq!(desc.width, 320);
    assert_eq!(desc.height, 320);
}

const RED: RgbColor = RgbColor { r: 255, g: 0, b: 0 };

#[test]
fn fans_show_states() {
    let f = fan(0x1B);
    let shown = f.apply_state(&RgbState::Static { color: RED }).unwrap();
    assert_eq!(shown, vec![RED; 16]);
    let zones = vec![ZoneLeds { zone: "ring".to_string(), leds: vec![(15, RED), (16, RED)] }];
    let shown = f.apply_state(&RgbState::PerLed { zones }).unwrap();
    assert_eq!(shown.len(), 16);
    assert_eq!(shown.iter().filter(|c| **c == RED).count(), 1);
    assert!(f.apply_state(&RgbState::Engine).is_none());
    assert!(f.write_frame("ring").is_ok());
    assert_eq!(f.write_frame("logo").unwrap_err(), FanError::UnknownZone);
    assert!(recognizes(0x13) && !recognizes(0x00));
}

#[test]
fn apply_static_updates_state() {
    let mut fan = fan(0x13);
    assert!(fan.current_state().is_none());
    let color = RgbColor { r: 255, g: 0, b: 0 };
    let state = RgbState::Static { color };
    assert!(fan.apply_state(&state).is_some());
    fan.state_applied(state);
    assert!(matches!(fan.current_state(), Some(RgbState::Static { .. })));
}

#[test]
fn apply_engine_updates_state() {
    let mut fan = fan(0x13);
    assert!(fan.apply_state(&RgbState::Engine).is_none());
    fan.state_applied(RgbState::Engine);
    assert!(matches!(fan.current_state(), Some(RgbState::Engine)));
}

#[test]
fn coolers_remember_their_state() {
    let mut k = kraken(0x3008);
    assert!(k.current_state().is_none());
    k.state_applied(RgbState::Static { color: RED });
    assert!(matches!(k.current_state(), Some(RgbState::Static { color }) if *color == RED));
}

#[test]
fn the_hub_lists_its_fans_and_channels() {
    let a = AccessoryInfo { channel_id: 0, accessory_id: 0x13 };
    let b = AccessoryInfo { channel_id: 1, accessory_id: 0xEE };
    assert_eq!(NZXTControlHub::discover_children(&[a, b]), vec![a]);
    assert_eq!(NZXTControlHub::channels().len(), 5);
    let (data, _) = NZXTControlHub::write_composed_frame("2", &[RED]).unwrap();
    assert_eq!(data[2], 0b100);
    assert_eq!(
        NZXTControlHub::write_composed_frame("x", &[RED]).unwrap_err(),
        ChannelError::InvalidId
    );
    assert_eq!(
        NZXTControlHub::write_composed_frame("9", &[RED]).unwrap_err(),
        ChannelError::OutOfRange { channel: 9 }
    );
}

fn kraken(pid: u16) -> NZXTKraken {
    NZXTKraken::new("kraken".to_string(), None, KRAKEN_VID, pid)
}

#[test]
fn only_the_x_series_has_a_logo() {
    let mut x = kraken(0x2007);
    let frame = x.apply_state(&RgbState::Static { color: RED }).unwrap();
    assert_eq!((frame.ring.len(), frame.logo), (8, Some(RED)));
    assert_eq!(x.write_frame("ring", &[RED; 8]).len(), 3);
    assert_eq!(x.write_frame("logo", &[RED]).len(), 1);
    let z = kraken(0x3008);
    let frame = z.apply_state(&RgbState::Static { color: RED }).unwrap();
    assert_eq!((frame.ring.len(), frame.logo), (24, None));
    assert!(z.apply_state(&RgbState::Engine).is_none());
    assert!(matches_hid(KRAKEN_VID, 0x3008));
    assert!(!matches_hid(KRAKEN_VID, 0x0001));
}

#[test]
fn coolers_offer_what_their_profile_has() {
    let z = kraken(0x3008);
    assert!(z.capabilities(true).iter().any(|c| matches!(c, KrakenCapability::Lcd)));
    let x = kraken(0x2007);
    assert!(!x.capabilities(true).iter().any(|c| matches!(c, KrakenCapability::Lcd)));
    assert_eq!(x.get_fan_controllable(), kraken_profile(0x2007).has_fan_channel);
    assert_eq!(x.set_fan_duty(40).is_some(), kraken_profile(0x2007).has_fan_channel);
}

#[test]
fn gifs_go_to_a_bucket() {
    assert!(matches!(NZXTKraken::set_image(b"GIF89a..."), ImagePath::Bucket));
    assert!(matches!(NZXTKraken::set_image(b"\x89PNG...."), ImagePath::Stream));
    assert!(matches!(NZXTKraken::set_image(b"GI"), ImagePath::Stream));
}

#[test]
fn the_screen_is_restored_as_it_was() {
    let name = Some("a.png".to_string());
    assert!(matches!(NZXTKraken::restore_state(true, name.clone()), RestorePlan::Engine));
    assert!(matches!(NZXTKraken::restore_state(false, name), RestorePlan::ShowImage(f) if f == "a.png"));
    assert!(matches!(NZXTKraken::restore_state(false, None), RestorePlan::Reset));
    let mut z = kraken(0x3008);
    z.lcd_state_read(75, 180);
    assert_eq!((z.lcd.brightness, z.lcd.rotation), (75, 180));
    assert_eq!(z.set_rotation(90)[7], 1);
    assert_eq!(z.set_brightness(40)[3], 40);
    z.set_active_image_filename(Some("b.gif".to_string()));
    assert_eq!(z.lcd.active_image.as_deref(), Some("b.gif"));
    z.reset_done();
    assert_eq!(z.lcd.active_image, None);
}

#[test]
fn sensors_show_the_last_status() {
    let mut z = kraken(0x3008);
    let mut pkt = vec![0u8; 26];
    pkt[0] = 0x75;
    pkt[1] = 0x01;
    pkt[15] = 31;
    pkt[16] = 4;
    z.protocol.handle_packet(&pkt);
    assert_eq!(z.protocol.status.liquid_temp_tenths, 314);
    assert!(!z.get_sensors().is_empty());
}

#[test]
fn sensors_are_shown_as_the_user_chose() {
    let mut z = kraken(0x3008);
    let id = z.get_sensors()[0].id.clone();
    assert_eq!(z.get_sensors()[0].visibility, VisibilityState::Visible);
    z.set_sensor_visibility("another", VisibilityState::Hidden);
    assert_eq!(z.get_sensors()[0].visibility, VisibilityState::Visible);
    z.set_sensor_visibility(&id, VisibilityState::Hidden);
    assert_eq!(z.get_sensors()[0].visibility, VisibilityState::Hidden);
    let w = z.serialize(Vec::new());
    assert!(w.capabilities.iter().any(|c| matches!(c, DeviceCapability::Sensors(s)
        if s[0].visibility == VisibilityState::Visible)));
    z.set_sensor_visibility(&id, VisibilityState::Visible);
    assert_eq!(z.get_sensors()[0].visibility, VisibilityState::Visible);
    assert_eq!(z.sensor_visibility.len(), 2);
}
