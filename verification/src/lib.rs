//! System-state binding layer of a desktop shell applet.
//!
//! The crate normalizes heterogeneous wire representations of machine
//! state (battery charge, power profile, screen brightness) into typed
//! domain values, arbitrates between discovered backlight devices, clamps
//! user-issued brightness commands, and models the lifecycle of each
//! change-notification feed.  All bus and filesystem traffic is performed
//! by the thin shell around the library; every decision the shell takes
//! is computed here, under contract.

pub mod feed;
pub mod format;
pub mod hadess;
pub mod logind;
pub mod panel;
pub mod style;
pub mod upower;
