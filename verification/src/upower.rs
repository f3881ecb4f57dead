//! Battery binding: the wire enumerations of the power-supply service,
//! the battery domain event, the initial availability decision, and the
//! translation of change notifications into events.

use vstd::prelude::*;

verus! {

/// The charging state a power-supply device reports.
#[derive(Debug, Clone, Copy, PartialEq, Eq, Structural)]
pub enum BatteryState {
    Unknown,
    Charging,
    Discharging,
    Empty,
    FullyCharged,
    PendingCharge,
    PendingDischarge,
}

impl BatteryState {
    /// The state's numeric wire code.
    pub open spec fn spec_code(self) -> u32 {
        match self {
            BatteryState::Unknown => 0,
            BatteryState::Charging => 1,
            BatteryState::Discharging => 2,
            BatteryState::Empty => 3,
            BatteryState::FullyCharged => 4,
            BatteryState::PendingCharge => 5,
            BatteryState::PendingDischarge => 6,
        }
    }

    /// The state denoted by a numeric wire code, if any.
    pub open spec fn spec_from_code(code: u32) -> Option<BatteryState> {
        if code == 0 {
            Some(BatteryState::Unknown)
        } else if code == 1 {
            Some(BatteryState::Charging)
        } else if code == 2 {
            Some(BatteryState::Discharging)
        } else if code == 3 {
            Some(BatteryState::Empty)
        } else if code == 4 {
            Some(BatteryState::FullyCharged)
        } else if code == 5 {
            Some(BatteryState::PendingCharge)
        } else if code == 6 {
            Some(BatteryState::PendingDischarge)
        } else {
            None
        }
    }

    /// Returns the state's numeric wire code.
    pub fn code(&self) -> (r: u32)
        ensures
            r == self.spec_code(),
            Self::spec_from_code(r) == Some(*self),
    {
        match self {
            BatteryState::Unknown => 0,
            BatteryState::Charging => 1,
            BatteryState::Discharging => 2,
            BatteryState::Empty => 3,
            BatteryState::FullyCharged => 4,
            BatteryState::PendingCharge => 5,
            BatteryState::PendingDischarge => 6,
        }
    }

    /// Decodes a numeric wire code.
    pub fn from_code(code: u32) -> (r: Option<BatteryState>)
        ensures
            r == Self::spec_from_code(code),
    {
        if code == 0 {
            Some(BatteryState::Unknown)
        } else if code == 1 {
            Some(BatteryState::Charging)
        } else if code == 2 {
            Some(BatteryState::Discharging)
        } else if code == 3 {
            Some(BatteryState::Empty)
        } else if code == 4 {
            Some(BatteryState::FullyCharged)
        } else if code == 5 {
            Some(BatteryState::PendingCharge)
        } else if code == 6 {
            Some(BatteryState::PendingDischarge)
        } else {
            None
        }
    }
}

/// The kind of power-supply device.
#[derive(Debug, Clone, Copy, PartialEq, Eq, Structural)]
pub enum BatteryType {
    Unknown,
    LinePower,
    Battery,
    Ups,
    Monitor,
    Mouse,
    Keyboard,
    Pda,
    Phone,
}

impl BatteryType {
    /// The kind's numeric wire code.
    pub open spec fn spec_code(self) -> u32 {
        match self {
            BatteryType::Unknown => 0,
            BatteryType::LinePower => 1,
            BatteryType::Battery => 2,
            BatteryType::Ups => 3,
            BatteryType::Monitor => 4,
            BatteryType::Mouse => 5,
            BatteryType::Keyboard => 6,
            BatteryType::Pda => 7,
            BatteryType::Phone => 8,
        }
    }

    /// The kind denoted by a numeric wire code, if any.
    pub open spec fn spec_from_code(code: u32) -> Option<BatteryType> {
        if code == 0 {
            Some(BatteryType::Unknown)
        } else if code == 1 {
            Some(BatteryType::LinePower)
        } else if code == 2 {
            Some(BatteryType::Battery)
        } else if code == 3 {
            Some(BatteryType::Ups)
        } else if code == 4 {
            Some(BatteryType::Monitor)
        } else if code == 5 {
            Some(BatteryType::Mouse)
        } else if code == 6 {
            Some(BatteryType::Keyboard)
        } else if code == 7 {
            Some(BatteryType::Pda)
        } else if code == 8 {
            Some(BatteryType::Phone)
        } else {
            None
        }
    }

    /// Returns the kind's numeric wire code.
    pub fn code(&self) -> (r: u32)
        ensures
            r == self.spec_code(),
            Self::spec_from_code(r) == Some(*self),
    {
        match self {
            BatteryType::Unknown => 0,
            BatteryType::LinePower => 1,
            BatteryType::Battery => 2,
            BatteryType::Ups => 3,
            BatteryType::Monitor => 4,
            BatteryType::Mouse => 5,
            BatteryType::Keyboard => 6,
            BatteryType::Pda => 7,
            BatteryType::Phone => 8,
        }
    }

    /// Decodes a numeric wire code.
    pub fn from_code(code: u32) -> (r: Option<BatteryType>)
        ensures
            r == Self::spec_from_code(code),
    {
        if code == 0 {
            Some(BatteryType::Unknown)
        } else if code == 1 {
            Some(BatteryType::LinePower)
        } else if code == 2 {
            Some(BatteryType::Battery)
        } else if code == 3 {
            Some(BatteryType::Ups)
        } else if code == 4 {
            Some(BatteryType::Monitor)
        } else if code == 5 {
            Some(BatteryType::Mouse)
        } else if code == 6 {
            Some(BatteryType::Keyboard)
        } else if code == 7 {
            Some(BatteryType::Pda)
        } else if code == 8 {
            Some(BatteryType::Phone)
        } else {
            None
        }
    }
}

/// The coarse charge level a power-supply device reports.  The wire
/// codes have gaps: 2 and 5 are not assigned.
#[derive(Debug, Clone, Copy, PartialEq, Eq, Structural)]
pub enum BatteryLevel {
    Unknown,
    NoLevel,
    Low,
    Critical,
    Normal,
    High,
    Full,
}

impl BatteryLevel {
    /// The level's numeric wire code.
    pub open spec fn spec_code(self) -> u32 {
        match self {
            BatteryLevel::Unknown => 0,
            BatteryLevel::NoLevel => 1,
            BatteryLevel::Low => 3,
            BatteryLevel::Critical => 4,
            BatteryLevel::Normal => 6,
            BatteryLevel::High => 7,
            BatteryLevel::Full => 8,
        }
    }

    /// The level denoted by a numeric wire code, if any.
    pub open spec fn spec_from_code(code: u32) -> Option<BatteryLevel> {
        if code == 0 {
            Some(BatteryLevel::Unknown)
        } else if code == 1 {
            Some(BatteryLevel::NoLevel)
        } else if code == 3 {
            Some(BatteryLevel::Low)
        } else if code == 4 {
            Some(BatteryLevel::Critical)
        } else if code == 6 {
            Some(BatteryLevel::Normal)
        } else if code == 7 {
            Some(BatteryLevel::High)
        } else if code == 8 {
            Some(BatteryLevel::Full)
        } else {
            None
        }
    }

    /// Returns the level's numeric wire code.
    pub fn code(&self) -> (r: u32)
        ensures
            r == self.spec_code(),
            Self::spec_from_code(r) == Some(*self),
    {
        match self {
            BatteryLevel::Unknown => 0,
            BatteryLevel::NoLevel => 1,
            BatteryLevel::Low => 3,
            BatteryLevel::Critical => 4,
            BatteryLevel::Normal => 6,
            BatteryLevel::High => 7,
            BatteryLevel::Full => 8,
        }
    }

    /// Decodes a numeric wire code.
    pub fn from_code(code: u32) -> (r: Option<BatteryLevel>)
        ensures
            r == Self::spec_from_code(code),
    {
        if code == 0 {
            Some(BatteryLevel::Unknown)
        } else if code == 1 {
            Some(BatteryLevel::NoLevel)
        } else if code == 3 {
            Some(BatteryLevel::Low)
        } else if code == 4 {
            Some(BatteryLevel::Critical)
        } else if code == 6 {
            Some(BatteryLevel::Normal)
        } else if code == 7 {
            Some(BatteryLevel::High)
        } else if code == 8 {
            Some(BatteryLevel::Full)
        } else {
            None
        }
    }
}

/// The battery domain event.  The percentage travels through this layer
/// untouched, as the raw bit pattern of the binary64 value the service
/// reports: the binding never computes with it, it only republishes it.
/// `time_to_empty` may be 0 when unknown.
#[derive(Debug, Clone, Copy, PartialEq, Eq, Structural)]
pub enum BatteryInfo {
    NotAvailable,
    Available { on_battery: bool, percent_bits: u64, time_to_empty: i64 },
}

/// What the availability scan reads of one enumerated power-supply
/// device; a device whose proxy could not be resolved is carried as
/// absent.
#[derive(Debug, Clone, Copy, PartialEq, Eq, Structural)]
pub struct PowerDeviceSnapshot {
    pub device_type: BatteryType,
    pub power_supply: bool,
}

/// Whether a snapshot shows a battery-backed power supply.
pub open spec fn is_supply_battery(s: PowerDeviceSnapshot) -> bool {
    s.device_type == BatteryType::Battery && s.power_supply
}

/// The initial availability decision over the enumerated devices: when
/// none of them is a battery acting as a power supply, the feed owes
/// its consumer one immediate `NotAvailable` event, returned here;
/// when a battery is present there is no initial event and the result
/// is empty.  The scan runs once per subscription, so a battery
/// hot-plugged later is not observed by it.
pub fn available_devices(devices: &Vec<Option<PowerDeviceSnapshot>>) -> (r: Option<BatteryInfo>)
    ensures
        (r is None <==> exists|i: int|
            0 <= i < devices@.len() && (#[trigger] devices@[i] matches Some(s)
                && is_supply_battery(s))),
        r is Some ==> r == Some(BatteryInfo::NotAvailable),
{
    let mut idx: usize = 0;
    while idx < devices.len()
        invariant
            idx <= devices@.len(),
            forall|i: int|
                0 <= i < idx ==> !(#[trigger] devices@[i] matches Some(s) && is_supply_battery(
                    s,
                )),
        decreases devices@.len() - idx,
    {
        match &devices[idx] {
            Some(snapshot) => {
                if snapshot.device_type == BatteryType::Battery && snapshot.power_supply {
                    return None;
                }
            },
            None => {},
        }
        idx = idx + 1;
    }
    Some(BatteryInfo::NotAvailable)
}

/// Translates one battery change notification into a domain event.
/// The watcher re-reads the cached on-battery flag, percentage and
/// time-to-empty, so every event is internally consistent with the
/// latest known full state; a cache miss on a value is treated as that
/// value's default (false, a zero percentage, 0 seconds).
pub fn battery_event(
    on_battery: Option<bool>,
    percent_bits: Option<u64>,
    time_to_empty: Option<i64>,
) -> (r: BatteryInfo)
    ensures
        r == (BatteryInfo::Available {
            on_battery: match on_battery {
                Some(b) => b,
                None => false,
            },
            percent_bits: match percent_bits {
                Some(p) => p,
                None => 0u64,
            },
            time_to_empty: match time_to_empty {
                Some(t) => t,
                None => 0i64,
            },
        }),
{
    BatteryInfo::Available {
        on_battery: match on_battery {
            Some(b) => b,
            None => false,
        },
        percent_bits: match percent_bits {
            Some(p) => p,
            None => 0,
        },
        time_to_empty: match time_to_empty {
            Some(t) => t,
            None => 0,
        },
    }
}

} // verus!
