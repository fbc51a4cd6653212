//! The one event record that every supported application's report is turned
//! into: one event per broadcast of one beacon.
use vstd::prelude::*;

use crate::json::JsonNumber;

verus! {

/// One broadcast of one beacon. Every field is always present.
#[derive(Clone, Debug, PartialEq, Eq)]
pub struct Event {
    /// The beacon's address, as the application reported it.
    pub beacon_address: String,
    /// Air pressure in hPa.
    pub air_pressure: JsonNumber,
    /// Relative humidity in percent.
    pub humidity: JsonNumber,
    /// Temperature in °C.
    pub temperature: JsonNumber,
    /// Received signal strength in dBm.
    pub rssi: i64,
    /// Time of the broadcast, in seconds since 1970-01-01 00:00:00 UTC.
    pub timestamp: i64,
}

/// Why a report gave no events.
#[derive(Clone, Debug, PartialEq, Eq)]
pub enum Error {
    /// The report was read, but it holds no beacon readings.
    EmptyEvent,
    /// A tag's update time is in none of the known layouts, or names a local
    /// time that the host's time zone skips.
    ParseError,
    /// The input is not JSON, or not a report of the expected shape; the text
    /// says why.
    DecodeError(String),
}

/// Turns a report of one application into events.
pub trait ToRuuvariEvent: Sized {
    /// Reads a JSON report and turns it into its events.
    fn from_json(input: &str) -> (r: Result<Vec<Event>, Error>)
        ensures
            r matches Ok(v) ==> v@.len() > 0,
    ;

    /// Turns a report that has been read into its events.
    fn to_events(&self) -> (r: Result<Vec<Event>, Error>)
        ensures
            r matches Ok(v) ==> v@.len() > 0,
    ;
}

} // verus!
