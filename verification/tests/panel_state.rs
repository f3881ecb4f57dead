//! Control-center state fold tests.

use morpheus::hadess::{PowerProfile, PowerProfileInfo};
use morpheus::logind::DisplayInfo;
use morpheus::panel::{ControlCenter, Effect, Message};
use morpheus::style;
use morpheus::upower::BatteryInfo;

#[test]
fn the_initial_state() {
    let state = ControlCenter::new();
    assert!(!state.is_battery_available);
    assert!(state.on_battery);
    assert_eq!(state.percent_bits, 0);
    assert_eq!(state.time_to_empty, 0);
    assert_eq!(state.master_volume, 100);
    assert_eq!(state.current_brightness, 0);
    assert_eq!(state.max_brightness, 0);
    assert_eq!(state.min_brightness, 0);
    assert_eq!(state.active_power_profile, PowerProfile::Balanced);
    assert_eq!(state.namespace(), "morpheus");
}

#[test]
fn a_battery_event_updates_the_battery_fields() {
    let mut state = ControlCenter::new();
    let effect = state.update(Message::UPowerDevice(BatteryInfo::Available {
        on_battery: false,
        percent_bits: 47.0f64.to_bits(),
        time_to_empty: 5400,
    }));
    assert_eq!(effect, Effect::Idle);
    assert!(!state.on_battery);
    assert_eq!(f64::from_bits(state.percent_bits), 47.0);
    assert_eq!(state.time_to_empty, 5400);
}

#[test]
fn an_unavailable_battery_clears_the_flag() {
    let mut state = ControlCenter::new();
    state.is_battery_available = true;
    let effect = state.update(Message::UPowerDevice(BatteryInfo::NotAvailable));
    assert_eq!(effect, Effect::Idle);
    assert!(!state.is_battery_available);
}

#[test]
fn a_profile_event_updates_the_profile() {
    let mut state = ControlCenter::new();
    let effect = state.update(Message::HadessDevice(PowerProfileInfo::Active(
        PowerProfile::Performance,
    )));
    assert_eq!(effect, Effect::Idle);
    assert_eq!(state.active_power_profile, PowerProfile::Performance);
}

#[test]
fn a_display_event_updates_the_brightness_triple() {
    let mut state = ControlCenter::new();
    let effect = state.update(Message::ScreenDevice(DisplayInfo::Available {
        current_brightness: 40,
        max_brightness: 250,
        min_brightness: 25,
    }));
    assert_eq!(effect, Effect::Idle);
    assert_eq!(state.current_brightness, 40);
    assert_eq!(state.max_brightness, 250);
    assert_eq!(state.min_brightness, 25);
}

#[test]
fn set_brightness_defers_to_the_shell() {
    let mut state = ControlCenter::new();
    let before = state;
    let effect = state.update(Message::SetBrightness(180));
    assert_eq!(effect, Effect::ApplyBrightness(180));
    assert_eq!(state, before);
}

#[test]
fn the_clamped_result_folds_back_as_get_brightness() {
    let mut state = ControlCenter::new();
    let effect = state.update(Message::GetBrightness(250));
    assert_eq!(effect, Effect::Idle);
    assert_eq!(state.current_brightness, 250);
}

#[test]
fn volume_and_profile_toggle_messages() {
    let mut state = ControlCenter::new();
    assert_eq!(state.update(Message::SetMasterVolume(40)), Effect::Idle);
    assert_eq!(state.master_volume, 40);
    assert_eq!(state.update(Message::ToggleProfiles), Effect::Idle);
    assert_eq!(state.master_volume, 40);
}

#[test]
fn style_selector_starting_values() {
    assert_eq!(style::Theme::default(), style::Theme::Dark);
    assert_eq!(style::Application::default(), style::Application::Plain);
    assert_eq!(style::Container::default(), style::Container::Plain);
    assert_eq!(style::Svg::default(), style::Svg::Plain);
    assert_eq!(style::Button::default(), style::Button::Plain);
}
