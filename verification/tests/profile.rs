//! Power-profile mapping and profile-watcher event tests.

use morpheus::hadess::{active_profile_event, PowerProfile, PowerProfileInfo};

#[test]
fn known_wire_strings_map_to_their_profile() {
    assert_eq!(
        PowerProfile::from("power-saver".to_string()),
        PowerProfile::PowerSaver
    );
    assert_eq!(
        PowerProfile::from("balanced".to_string()),
        PowerProfile::Balanced
    );
    assert_eq!(
        PowerProfile::from("performance".to_string()),
        PowerProfile::Performance
    );
}

#[test]
fn unknown_wire_strings_map_to_unknown() {
    assert_eq!(
        PowerProfile::from("turbo".to_string()),
        PowerProfile::Unknown
    );
    assert_eq!(PowerProfile::from("".to_string()), PowerProfile::Unknown);
    assert_eq!(
        PowerProfile::from("Power-Saver".to_string()),
        PowerProfile::Unknown
    );
    assert_eq!(
        PowerProfile::from("balanced ".to_string()),
        PowerProfile::Unknown
    );
    assert_eq!(
        PowerProfile::from("performance!".to_string()),
        PowerProfile::Unknown
    );
}

#[test]
fn profile_default_is_balanced() {
    assert_eq!(PowerProfile::default(), PowerProfile::Balanced);
}

#[test]
fn profile_labels() {
    assert_eq!(PowerProfile::PowerSaver.label(), "Power Saver");
    assert_eq!(PowerProfile::Balanced.label(), "Balanced");
    assert_eq!(PowerProfile::Performance.label(), "Performance");
    assert_eq!(PowerProfile::Unknown.label(), "Unknown");
}

#[test]
fn profile_event_reads_the_cached_wire_string() {
    assert_eq!(
        active_profile_event(Some("performance".to_string())),
        PowerProfileInfo::Active(PowerProfile::Performance)
    );
    assert_eq!(
        active_profile_event(Some("power-saver".to_string())),
        PowerProfileInfo::Active(PowerProfile::PowerSaver)
    );
}

#[test]
fn profile_event_cache_miss_is_unknown() {
    assert_eq!(
        active_profile_event(None),
        PowerProfileInfo::Active(PowerProfile::Unknown)
    );
}
