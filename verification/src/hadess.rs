//! Power-profile binding: the closed profile enumeration, its mapping
//! from the wire string published by the profile-management service, and
//! the translation of a change notification into a domain event.

use vstd::prelude::*;

verus! {

/// The machine's active power profile, as published by the
/// profile-management service.
#[derive(Debug, Clone, Copy, PartialEq, Eq, Structural)]
pub enum PowerProfile {
    PowerSaver,
    Balanced,
    Performance,
    Unknown,
}

/// The deterministic mapping from a wire string to a profile: the three
/// known strings map to their profile, everything else to `Unknown`.
pub open spec fn wire_to_profile(s: Seq<char>) -> PowerProfile {
    if s == "power-saver"@ {
        PowerProfile::PowerSaver
    } else if s == "balanced"@ {
        PowerProfile::Balanced
    } else if s == "performance"@ {
        PowerProfile::Performance
    } else {
        PowerProfile::Unknown
    }
}

impl PowerProfile {
    /// The human-readable label of the profile.
    pub open spec fn spec_label(self) -> Seq<char> {
        match self {
            PowerProfile::PowerSaver => "Power Saver"@,
            PowerProfile::Balanced => "Balanced"@,
            PowerProfile::Performance => "Performance"@,
            PowerProfile::Unknown => "Unknown"@,
        }
    }

    /// Returns the display label of the profile.
    pub fn label(&self) -> (r: String)
        ensures
            r@ == self.spec_label(),
    {
        match self {
            PowerProfile::PowerSaver => "Power Saver".to_owned(),
            PowerProfile::Balanced => "Balanced".to_owned(),
            PowerProfile::Performance => "Performance".to_owned(),
            PowerProfile::Unknown => "Unknown".to_owned(),
        }
    }
}

impl Default for PowerProfile {
    /// Before the first change notification arrives the profile is taken
    /// to be `Balanced`.
    fn default() -> (r: Self)
        ensures
            r == PowerProfile::Balanced,
    {
        PowerProfile::Balanced
    }
}

impl From<String> for PowerProfile {
    fn from(value: String) -> (r: Self) {
        let power_saver: String = "power-saver".to_owned();
        let balanced: String = "balanced".to_owned();
        let performance: String = "performance".to_owned();
        if value == power_saver {
            PowerProfile::PowerSaver
        } else if value == balanced {
            PowerProfile::Balanced
        } else if value == performance {
            PowerProfile::Performance
        } else {
            PowerProfile::Unknown
        }
    }
}

impl vstd::std_specs::convert::FromSpecImpl<String> for PowerProfile {
    open spec fn obeys_from_spec() -> bool {
        true
    }

    open spec fn from_spec(value: String) -> Self {
        wire_to_profile(value@)
    }
}

/// Every wire string outside the three known ones maps to `Unknown`.
pub proof fn lemma_unknown_wire_maps_to_unknown(s: Seq<char>)
    requires
        s != "power-saver"@,
        s != "balanced"@,
        s != "performance"@,
    ensures
        wire_to_profile(s) == PowerProfile::Unknown,
{
}

/// The domain event published by the power-profile watcher.
#[derive(Debug, Clone, Copy, PartialEq, Eq, Structural)]
pub enum PowerProfileInfo {
    Active(PowerProfile),
}

/// Translates one "active profile changed" notification into a domain
/// event.  The watcher re-reads the cached active-profile string; a
/// cache miss is treated as the empty string, which maps to `Unknown`.
pub fn active_profile_event(cached: Option<String>) -> (r: PowerProfileInfo)
    ensures
        r == PowerProfileInfo::Active(match cached {
            Some(s) => wire_to_profile(s@),
            None => wire_to_profile(Seq::<char>::empty()),
        }),
{
    let wire = match cached {
        Some(s) => s,
        None => String::new(),
    };
    PowerProfileInfo::Active(PowerProfile::from(wire))
}

} // verus!
