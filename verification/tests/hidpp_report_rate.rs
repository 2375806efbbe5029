//! Report rates.

use halod_drivers::logitech::protocols::hidpp::v2::settings::report_rate::{
    ext_report_rate_options, plain_report_rate_options,
};
use halod_drivers::logitech::protocols::hidpp::v2::Hidpp20;

#[test]
fn ext_flags_0x0009_yields_two_options() {
    let opts = ext_report_rate_options(0x0009);
    assert_eq!(opts.len(), 2);
    assert_eq!(opts[0].wire_index, 0); // 8ms
    assert_eq!(opts[1].wire_index, 3); // 1ms
}

#[test]
fn ext_flags_0x0001_yields_only_8ms() {
    let opts = ext_report_rate_options(0x0001);
    assert_eq!(opts.len(), 1);
    assert_eq!(opts[0].wire_index, 0);
    assert_eq!(opts[0].label, "8ms");
}

#[test]
fn ext_flags_all_bits_yields_7_options() {
    let opts = ext_report_rate_options(0x007F);
    assert_eq!(opts.len(), 7);
    assert_eq!(opts[0].label, "8ms");
    assert_eq!(opts[6].label, "125µs");
}

#[test]
fn ext_flags_0x0000_yields_empty() {
    let opts = ext_report_rate_options(0x0000);
    assert!(opts.is_empty());
}

#[test]
fn plain_flags_0x0f_yields_four_options() {
    let opts = plain_report_rate_options(0x0F);
    assert_eq!(opts.len(), 4);
    assert_eq!(opts[0].ms, 1);
    assert_eq!(opts[3].ms, 4);
}

#[test]
fn plain_flags_0x00_yields_empty() {
    let opts = plain_report_rate_options(0x00);
    assert!(opts.is_empty());
}

#[test]
fn plain_flags_0xff_yields_8_options_1ms_through_8ms() {
    let opts = plain_report_rate_options(0xFF);
    assert_eq!(opts.len(), 8);
    assert_eq!(opts[0].label, "1ms");
    assert_eq!(opts[7].label, "8ms");
}

#[test]
fn extended_rates_are_preferred_where_they_were_read() {
    let info = Hidpp20::read_report_rates(Some(&[0x00, 0x09]), Some(&[3]), Some(&[0xFF]), Some(&[1])).unwrap();
    assert!(info.ext);
    assert_eq!(info.current, Some(3));
    assert_eq!(info.options.len(), 2);
    let info = Hidpp20::read_report_rates(Some(&[0x00, 0x09]), None, Some(&[0x81]), Some(&[])).unwrap();
    assert!(!info.ext);
    assert_eq!(info.current, None);
    assert_eq!(info.options[1].label, "8ms");
    assert!(Hidpp20::read_report_rates(None, None, Some(&[1]), None).is_none());
}
