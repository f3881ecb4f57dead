//! The control-center state fold: the snapshot of machine state the
//! view renders, the messages that reach it, and the transition that
//! folds every message into the snapshot and names the one side effect
//! the shell must perform.

use vstd::prelude::*;
use crate::hadess::PowerProfile;
use crate::hadess::PowerProfileInfo;
use crate::logind::DisplayInfo;
use crate::upower::BatteryInfo;

verus! {

/// The last reported machine state, as the view renders it.  The
/// percentage is carried as the raw bit pattern of the binary64 value
/// the battery feed delivered, untouched by this layer.
#[derive(Debug, Clone, Copy, PartialEq, Eq, Structural)]
pub struct ControlCenter {
    pub is_battery_available: bool,
    pub on_battery: bool,
    pub percent_bits: u64,
    pub time_to_empty: i64,
    pub master_volume: u32,
    pub current_brightness: i32,
    pub max_brightness: i32,
    pub min_brightness: i32,
    pub active_power_profile: PowerProfile,
}

/// Everything that reaches the control center: one domain event per
/// feed, and the user's own intents.
#[derive(Debug, Clone, Copy, PartialEq, Eq, Structural)]
pub enum Message {
    UPowerDevice(BatteryInfo),
    HadessDevice(PowerProfileInfo),
    ScreenDevice(DisplayInfo),
    SetMasterVolume(u32),
    SetBrightness(i32),
    GetBrightness(i32),
    ToggleProfiles,
}

/// The one side effect a message can demand of the shell: issuing the
/// privileged brightness write, whose clamped result comes back as a
/// `GetBrightness` message.
#[derive(Debug, Clone, Copy, PartialEq, Eq, Structural)]
pub enum Effect {
    Idle,
    ApplyBrightness(i32),
}

/// How one message folds into the state, and what it asks of the
/// shell.
pub open spec fn spec_update(s: ControlCenter, message: Message) -> (ControlCenter, Effect) {
    match message {
        Message::UPowerDevice(event) => match event {
            BatteryInfo::NotAvailable => (
                ControlCenter { is_battery_available: false, ..s },
                Effect::Idle,
            ),
            BatteryInfo::Available { on_battery, percent_bits, time_to_empty } => (
                ControlCenter { on_battery, percent_bits, time_to_empty, ..s },
                Effect::Idle,
            ),
        },
        Message::HadessDevice(event) => match event {
            PowerProfileInfo::Active(profile) => (
                ControlCenter { active_power_profile: profile, ..s },
                Effect::Idle,
            ),
        },
        Message::ScreenDevice(event) => match event {
            DisplayInfo::Available { current_brightness, max_brightness, min_brightness } => (
                ControlCenter { current_brightness, max_brightness, min_brightness, ..s },
                Effect::Idle,
            ),
        },
        Message::SetBrightness(value) => (s, Effect::ApplyBrightness(value)),
        Message::GetBrightness(value) => (
            ControlCenter { current_brightness: value, ..s },
            Effect::Idle,
        ),
        Message::ToggleProfiles => (s, Effect::Idle),
        Message::SetMasterVolume(value) => (
            ControlCenter { master_volume: value, ..s },
            Effect::Idle,
        ),
    }
}

impl ControlCenter {
    /// The state before any event has arrived: no battery reported
    /// yet, assumed on battery, full master volume, zeroed brightness
    /// triple, and the default power profile.
    pub fn new() -> (r: ControlCenter)
        ensures
            r == (ControlCenter {
                is_battery_available: false,
                on_battery: true,
                percent_bits: 0u64,
                time_to_empty: 0i64,
                master_volume: 100u32,
                current_brightness: 0i32,
                max_brightness: 0i32,
                min_brightness: 0i32,
                active_power_profile: PowerProfile::Balanced,
            }),
    {
        ControlCenter {
            is_battery_available: false,
            on_battery: true,
            percent_bits: 0,
            time_to_empty: 0,
            master_volume: 100,
            current_brightness: 0,
            max_brightness: 0,
            min_brightness: 0,
            active_power_profile: PowerProfile::Balanced,
        }
    }

    /// The window namespace the shell registers.
    pub fn namespace(&self) -> (r: String)
        ensures
            r@ == "morpheus"@,
    {
        "morpheus".to_owned()
    }

    /// Folds one message into the state and returns the side effect
    /// the shell must perform.
    pub fn update(&mut self, message: Message) -> (e: Effect)
        ensures
            (*final(self), e) == spec_update(*old(self), message),
    {
        match message {
            Message::UPowerDevice(event) => {
                match event {
                    BatteryInfo::NotAvailable => {
                        self.is_battery_available = false;
                    },
                    BatteryInfo::Available { on_battery, percent_bits, time_to_empty } => {
                        self.on_battery = on_battery;
                        self.percent_bits = percent_bits;
                        self.time_to_empty = time_to_empty;
                    },
                }
                Effect::Idle
            },
            Message::HadessDevice(event) => {
                match event {
                    PowerProfileInfo::Active(profile) => {
                        self.active_power_profile = profile;
                    },
                }
                Effect::Idle
            },
            Message::ScreenDevice(event) => {
                match event {
                    DisplayInfo::Available {
                        current_brightness,
                        max_brightness,
                        min_brightness,
                    } => {
                        self.current_brightness = current_brightness;
                        self.max_brightness = max_brightness;
                        self.min_brightness = min_brightness;
                    },
                }
                Effect::Idle
            },
            Message::SetBrightness(value) => Effect::ApplyBrightness(value),
            Message::GetBrightness(value) => {
                self.current_brightness = value;
                Effect::Idle
            },
            Message::ToggleProfiles => Effect::Idle,
            Message::SetMasterVolume(value) => {
                self.master_volume = value;
                Effect::Idle
            },
        }
    }
}

} // verus!
