//! Backlight device, parsing, arbitration and display-interface tests.

use morpheus::logind::{
    choose_best, display_event, parse_device_value, BacklightCandidate, BrightnessDevice,
    DeviceIoError, DisplayBrightnessDevice, DisplayInfo,
};

fn candidate(name: &str, text: &str) -> BacklightCandidate {
    BacklightCandidate {
        sysname: Some(name.to_string()),
        max_brightness_text: Some(text.to_string()),
    }
}

#[test]
fn parse_accepts_newline_terminated_decimals() {
    assert_eq!(parse_device_value("250\n"), Some(250));
    assert_eq!(parse_device_value("0\n"), Some(0));
    assert_eq!(parse_device_value("  123 \r\n"), Some(123));
    assert_eq!(parse_device_value("007"), Some(7));
    assert_eq!(parse_device_value("4294967295\n"), Some(4294967295));
}

#[test]
fn parse_rejects_garbled_content() {
    assert_eq!(parse_device_value(""), None);
    assert_eq!(parse_device_value("\n"), None);
    assert_eq!(parse_device_value("abc\n"), None);
    assert_eq!(parse_device_value("12 3\n"), None);
    assert_eq!(parse_device_value("-5\n"), None);
    assert_eq!(parse_device_value("4294967296\n"), None);
    assert_eq!(parse_device_value("99999999999999999999\n"), None);
}

#[test]
fn new_reads_bounds_from_the_metadata_file() {
    let device = BrightnessDevice::new("backlight", "intel_backlight".to_string(), "250\n")
        .expect("constructible");
    assert_eq!(device.max_brightness(), 250);
    assert_eq!(device.min_brightness(), 25);
    assert_eq!(device.sysname().as_str(), "intel_backlight");
    assert_eq!(device.subsystem().as_str(), "backlight");
}

#[test]
fn new_rejects_a_garbled_metadata_file() {
    let err = BrightnessDevice::new("backlight", "bad".to_string(), "bright\n")
        .expect_err("not constructible");
    assert_eq!(err, DeviceIoError::Malformed);
    assert_eq!(err.message(), "device file is not a decimal value");
}

#[test]
fn set_brightness_clamps_into_the_device_bounds() {
    let device = BrightnessDevice::new("backlight", "panel".to_string(), "250\n").unwrap();
    assert_eq!(device.min_brightness(), 25);
    assert_eq!(device.max_brightness(), 250);
    assert_eq!(device.set_brightness(-5), 25);
    assert_eq!(device.set_brightness(9999), 250);
    assert_eq!(device.set_brightness(100), 100);
    assert_eq!(device.set_brightness(25), 25);
    assert_eq!(device.set_brightness(250), 250);
}

#[test]
fn brightness_is_idempotent_without_a_write() {
    let device = BrightnessDevice::new("backlight", "panel".to_string(), "250\n").unwrap();
    let reading = "180\n";
    let first = device.brightness(Some(reading));
    let second = device.brightness(Some(reading));
    assert_eq!(first, Ok(180));
    assert_eq!(first, second);
}

#[test]
fn brightness_rejects_a_garbled_state_file() {
    let device = BrightnessDevice::new("backlight", "panel".to_string(), "250\n").unwrap();
    assert_eq!(device.brightness(Some("?\n")), Err(DeviceIoError::Malformed));
    assert_eq!(device.brightness(None), Err(DeviceIoError::Unreadable));
    assert_eq!(
        DeviceIoError::Unreadable.message(),
        "device file could not be read"
    );
}

#[test]
fn choose_best_over_no_candidates_is_none() {
    assert!(choose_best(Vec::new()).is_none());
}

#[test]
fn choose_best_keeps_the_greatest_maximum() {
    let picked = choose_best(vec![
        candidate("a", "50\n"),
        candidate("b", "200\n"),
        candidate("c", "120\n"),
    ])
    .expect("one candidate wins");
    assert_eq!(picked.max_brightness(), 200);
    assert_eq!(picked.sysname().as_str(), "b");
}

#[test]
fn choose_best_ties_keep_the_first() {
    let picked = choose_best(vec![
        candidate("first", "200\n"),
        candidate("second", "200\n"),
        candidate("third", "120\n"),
    ])
    .expect("one candidate wins");
    assert_eq!(picked.sysname().as_str(), "first");
}

#[test]
fn choose_best_skips_unconstructible_candidates() {
    let picked = choose_best(vec![
        BacklightCandidate {
            sysname: None,
            max_brightness_text: Some("900\n".to_string()),
        },
        BacklightCandidate {
            sysname: Some("unreadable".to_string()),
            max_brightness_text: None,
        },
        candidate("garbled", "n/a\n"),
        candidate("ok", "60\n"),
    ])
    .expect("one candidate wins");
    assert_eq!(picked.sysname().as_str(), "ok");
    assert_eq!(picked.max_brightness(), 60);
}

#[test]
fn choose_best_keeps_a_sole_zero_capability_candidate() {
    let picked = choose_best(vec![candidate("dim", "0\n")]).expect("constructible");
    assert_eq!(picked.max_brightness(), 0);
    assert_eq!(picked.min_brightness(), 0);
}

#[test]
fn choose_best_with_only_failed_candidates_is_none() {
    let picked = choose_best(vec![
        BacklightCandidate {
            sysname: None,
            max_brightness_text: None,
        },
        candidate("garbled", "zzz\n"),
    ]);
    assert!(picked.is_none());
}

#[test]
fn discovery_then_clamp_end_to_end() {
    let picked = choose_best(vec![candidate("A", "100\n"), candidate("B", "400\n")])
        .expect("one candidate wins");
    assert_eq!(picked.sysname().as_str(), "B");
    assert_eq!(picked.set_brightness(1000), 400);
}

#[test]
fn display_interface_without_a_device_serves_the_sentinel() {
    let display = DisplayBrightnessDevice::new(None);
    assert_eq!(display.max_brightness(), -1);
    assert_eq!(display.min_brightness(), -1);
    assert_eq!(display.current_brightness(Some("40\n")), -1);
    assert_eq!(display.set_brightness(80), None);
}

#[test]
fn display_interface_with_a_device_serves_its_values() {
    let device = BrightnessDevice::new("backlight", "panel".to_string(), "250\n").unwrap();
    let display = DisplayBrightnessDevice::new(Some(device));
    assert_eq!(display.max_brightness(), 250);
    assert_eq!(display.min_brightness(), 25);
    assert_eq!(display.current_brightness(Some("40\n")), 40);
    assert_eq!(display.current_brightness(Some("forty\n")), -1);
    assert_eq!(display.current_brightness(None), -1);
    assert_eq!(display.set_brightness(-3), Some(25));
    assert_eq!(display.set_brightness(80), Some(80));
}

#[test]
fn display_event_reads_the_cached_triple() {
    assert_eq!(
        display_event(Some(40), Some(250), Some(25)),
        DisplayInfo::Available {
            current_brightness: 40,
            max_brightness: 250,
            min_brightness: 25,
        }
    );
}

#[test]
fn display_event_cache_misses_fall_to_zero() {
    assert_eq!(
        display_event(None, Some(250), None),
        DisplayInfo::Available {
            current_brightness: 0,
            max_brightness: 250,
            min_brightness: 0,
        }
    );
}
