//! Battery levels.

use halod_drivers::logitech::protocols::hidpp::v2::battery::{parse_battery_voltage, voltage_to_percent};

#[test]
fn voltage_to_percent_endpoints_and_interpolation() {
    assert_eq!(voltage_to_percent(4200), 100); // above max
    assert_eq!(voltage_to_percent(4186), 100); // at max
    assert_eq!(voltage_to_percent(3500), 0); // at min
    assert_eq!(voltage_to_percent(3000), 0); // below min
    assert_eq!(voltage_to_percent(4067), 90);
    assert_eq!(voltage_to_percent(4028), 85);
    let mut prev = 0;
    for mv in (3500..=4186).step_by(10) {
        let p = voltage_to_percent(mv);
        assert!(p >= prev, "non-monotonic at {mv} mV");
        prev = p;
    }
}

#[test]
fn parse_battery_voltage_decodes_mv_and_charging() {
    let (pct, charging) = parse_battery_voltage(&[0x0F, 0x66, 0x03]).unwrap();
    assert_eq!(pct, voltage_to_percent(3942));
    assert!(charging);
    let (_, charging) = parse_battery_voltage(&[0x0F, 0x66, 0x01]).unwrap();
    assert!(!charging);
    assert!(parse_battery_voltage(&[0x0F]).is_none());
    assert!(parse_battery_voltage(&[0x00, 0x00, 0x01]).is_none());
}
