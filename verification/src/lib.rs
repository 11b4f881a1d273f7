//! Core of a background countdown timer with a status-bar presence.
//!
//! The library holds the authoritative timer state machine (tick,
//! pause-for-percent, toggle-run), the policy that merges tray-originated
//! actions into the single owner of the state, the display-snapshot
//! formatting, and the tray's presentation model. The surrounding GUI,
//! tray protocol, audio pipeline, and process plumbing live outside the
//! library and talk to it through plain values.

pub mod actions;
pub mod display;
pub mod state;
pub mod tray;
