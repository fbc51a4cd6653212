//! Normalises beacon telemetry sent by two Android applications into one
//! event record.
pub mod beaconscanner;
pub mod clock;
pub mod dispatch;
pub mod event;
pub mod json;
pub mod laws;
pub mod ruuvistation;

pub use event::{Error, Event, ToRuuvariEvent};
