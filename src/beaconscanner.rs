//! Reports sent by the Beacon Scanner Android application: the readings of
//! one scanner, each with the beacon's address, signal strength, sensor data
//! and the time it was last seen.
use vstd::prelude::*;

use crate::event::{Error, Event, ToRuuvariEvent};
use crate::json::{
    bool_field, bool_of, field, get_field, has_field, i64_field, i64_of, json_text, number_field,
    number_of, parse_json, str_field, str_of, u64_field, u64_of, copy_number, Json, JsonNumber,
};

verus! {

/// A report of one scanner.
#[derive(Clone, Debug, PartialEq, Eq)]
pub struct Beacons {
    /// The readings, in the order of the report.
    pub beacons: Vec<Beacon>,
    /// The scanner's name.
    pub reader: String,
}

/// One reading of one beacon.
#[derive(Clone, Debug, PartialEq, Eq)]
pub struct Beacon {
    pub beacon_address: String,
    /// When the beacon was last seen, in epoch milliseconds.
    pub last_seen: u64,
    pub rssi: i64,
    pub ruuvi_data: RuuviData,
}

/// What a beacon's sensors measured.
#[derive(Clone, Debug, PartialEq, Eq)]
pub struct RuuviData {
    /// In hPa.
    pub air_pressure: JsonNumber,
    /// In percent relative humidity.
    pub humidity: JsonNumber,
    /// In °C.
    pub temperature: JsonNumber,
}

/// The sensor block of a reading.
pub open spec fn ruuvi_data_of(v: Option<Json>) -> Option<RuuviData> {
    match v {
        Some(Json::Object(o)) => match (
            number_of(field(o@, "airPressure"@)),
            number_of(field(o@, "humidity"@)),
            number_of(field(o@, "temperature"@)),
        ) {
            (Some(p), Some(h), Some(t)) => Some(
                RuuviData { air_pressure: p, humidity: h, temperature: t },
            ),
            _ => None,
        },
        _ => None,
    }
}

/// The members of a reading that must be present, with their types, though
/// no event carries them.
pub open spec fn beacon_shape(o: Seq<(String, Json)>) -> bool {
    &&& str_of(field(o, "beaconType"@)) is Some
    &&& number_of(field(o, "distance"@)) is Some
    &&& field(o, "eddystoneUrlData"@) is Some
    &&& u64_of(field(o, "hashcode"@)) is Some
    &&& bool_of(field(o, "isBlocked"@)) is Some
    &&& u64_of(field(o, "lastMinuteSeen"@)) is Some
    &&& u64_of(field(o, "manufacturer"@)) is Some
    &&& i64_of(field(o, "txPower"@)) is Some
}

/// The reading that `v` holds, if it is one.
pub open spec fn beacon_of(v: Json) -> Option<Beacon> {
    match v {
        Json::Object(o) => match (
            str_of(field(o@, "beaconAddress"@)),
            u64_of(field(o@, "lastSeen"@)),
            i64_of(field(o@, "rssi"@)),
            ruuvi_data_of(field(o@, "ruuviData"@)),
        ) {
            (Some(a), Some(l), Some(r), Some(d)) => if beacon_shape(o@) {
                Some(Beacon { beacon_address: a, last_seen: l, rssi: r, ruuvi_data: d })
            } else {
                None
            },
            _ => None,
        },
        _ => None,
    }
}

/// The readings and the scanner's name that `v` holds, if it is a report.
pub open spec fn beacons_of(v: Json) -> Option<(Seq<Beacon>, String)> {
    match v {
        Json::Object(o) => match (field(o@, "beacons"@), str_of(field(o@, "reader"@))) {
            (Some(Json::Array(items)), Some(reader)) => if forall|i: int|
                0 <= i < items@.len() ==> (#[trigger] beacon_of(items@[i])) is Some {
                Some((Seq::new(items@.len(), |i: int| beacon_of(items@[i])->0), reader))
            } else {
                None
            },
            _ => None,
        },
        _ => None,
    }
}

/// The event of reading `b`, placed at `timestamp`.
pub open spec fn beacon_event(b: Beacon, timestamp: i64) -> Event {
    Event {
        beacon_address: b.beacon_address,
        air_pressure: b.ruuvi_data.air_pressure,
        humidity: b.ruuvi_data.humidity,
        temperature: b.ruuvi_data.temperature,
        rssi: b.rssi,
        timestamp,
    }
}

/// The time of a reading: its epoch milliseconds cut to whole seconds. The
/// scanner counts them from the same 1970 instant as UTC does, so the second
/// is already a point on the UTC time line.
pub open spec fn seen_seconds(b: Beacon) -> i64 {
    (b.last_seen / 1000) as i64
}

/// The events of `readings`: one per reading, in order, each with the
/// reading's data and time.
pub open spec fn beacon_events(readings: Seq<Beacon>) -> Seq<Event> {
    Seq::new(readings.len(), |i: int| beacon_event(readings[i], seen_seconds(readings[i])))
}

/// What turning `readings` into events gives: `EmptyEvent` where there are no
/// readings, else their events.
pub open spec fn beacon_outcome(readings: Seq<Beacon>, r: Result<Vec<Event>, Error>) -> bool {
    if readings.len() == 0 {
        r == Err::<Vec<Event>, Error>(Error::EmptyEvent)
    } else {
        r matches Ok(v) && v@ == beacon_events(readings)
    }
}

/// What reading the JSON text `input` as a report may give: a decode error
/// where it is not JSON or not a report, else what its readings give.
pub open spec fn beacon_json_outcome(input: Seq<char>, r: Result<Vec<Event>, Error>) -> bool {
    match json_text(input) {
        None => r matches Err(Error::DecodeError(_)),
        Some(j) => match beacons_of(j) {
            None => r matches Err(Error::DecodeError(_)),
            Some(p) => beacon_outcome(p.0, r),
        },
    }
}

/// Reads the sensor block of a reading.
fn decode_ruuvi_data(v: Option<&Json>) -> (r: Option<RuuviData>)
    ensures
        r == ruuvi_data_of(
            match v {
                Some(j) => Some(*j),
                None => None,
            },
        ),
{
    let o = match v {
        Some(Json::Object(o)) => o,
        _ => return None,
    };
    match (number_field(o, "airPressure"), number_field(o, "humidity"), number_field(o, "temperature")) {
        (Some(p), Some(h), Some(t)) => Some(RuuviData { air_pressure: p, humidity: h, temperature: t }),
        _ => None,
    }
}

/// Reads one reading.
pub fn decode_beacon(v: &Json) -> (r: Option<Beacon>)
    ensures
        r == beacon_of(*v),
{
    let o = match v {
        Json::Object(o) => o,
        _ => return None,
    };
    let shape = str_field(o, "beaconType").is_some() && number_field(o, "distance").is_some()
        && has_field(o, "eddystoneUrlData") && u64_field(o, "hashcode").is_some() && bool_field(
        o,
        "isBlocked",
    ).is_some() && u64_field(o, "lastMinuteSeen").is_some() && u64_field(o, "manufacturer").is_some()
        && i64_field(o, "txPower").is_some();
    let data = decode_ruuvi_data(get_field(o, "ruuviData"));
    match (str_field(o, "beaconAddress"), u64_field(o, "lastSeen"), i64_field(o, "rssi"), data) {
        (Some(a), Some(l), Some(r), Some(d)) => if shape {
            Some(Beacon { beacon_address: a, last_seen: l, rssi: r, ruuvi_data: d })
        } else {
            None
        },
        _ => None,
    }
}

impl Beacons {
    /// Reads a report from JSON text.
    pub fn parse(input: &str) -> (r: Result<Beacons, Error>)
        ensures
            match json_text(input@) {
                Some(j) if beacons_of(j) is Some => r matches Ok(b) && beacons_of(j) == Some(
                    (b.beacons@, b.reader),
                ),
                _ => r matches Err(Error::DecodeError(_)),
            },
    {
        let doc = match parse_json(input) {
            Ok(j) => j,
            Err(msg) => return Err(Error::DecodeError(msg)),
        };
        match Beacons::decode(&doc) {
            Some(b) => Ok(b),
            None => Err(Error::DecodeError("not a Beacon Scanner report".to_string())),
        }
    }

    /// Reads a report from a parsed document.
    pub fn decode(v: &Json) -> (r: Option<Beacons>)
        ensures
            match r {
                Some(b) => beacons_of(*v) == Some((b.beacons@, b.reader)),
                None => beacons_of(*v) is None,
            },
    {
        let o = match v {
            Json::Object(o) => o,
            _ => return None,
        };
        let reader = match str_field(o, "reader") {
            Some(s) => s,
            None => return None,
        };
        let items = match get_field(o, "beacons") {
            Some(Json::Array(items)) => items,
            _ => return None,
        };
        let mut beacons: Vec<Beacon> = Vec::new();
        let mut i: usize = 0;
        while i < items.len()
            invariant
                i <= items@.len(),
                *v == Json::Object(*o),
                field(o@, "beacons"@) == Some(Json::Array(*items)),
                str_of(field(o@, "reader"@)) == Some(reader),
                beacons@.len() == i,
                forall|k: int| 0 <= k < i ==> beacon_of(items@[k]) == Some(#[trigger] beacons@[k]),
            decreases items@.len() - i,
        {
            match decode_beacon(&items[i]) {
                Some(b) => beacons.push(b),
                None => {
                    assert(beacon_of(items@[i as int]) is None);
                    return None;
                },
            }
            i += 1;
        }
        assert forall|k: int| 0 <= k < items@.len() implies (#[trigger] beacon_of(items@[k])) is Some by {
            assert(beacon_of(items@[k]) == Some(beacons@[k]));
        }
        assert(beacons@ =~= Seq::new(items@.len(), |k: int| beacon_of(items@[k])->0));
        Some(Beacons { beacons, reader })
    }
}

/// The event of one reading.
fn to_event(beacon: &Beacon) -> (r: Event)
    ensures
        r == beacon_event(*beacon, seen_seconds(*beacon)),
{
    Event {
        beacon_address: beacon.beacon_address.clone(),
        air_pressure: copy_number(&beacon.ruuvi_data.air_pressure),
        humidity: copy_number(&beacon.ruuvi_data.humidity),
        temperature: copy_number(&beacon.ruuvi_data.temperature),
        rssi: beacon.rssi,
        timestamp: (beacon.last_seen / 1000) as i64,
    }
}

impl ToRuuvariEvent for Beacons {
    fn from_json(input: &str) -> (r: Result<Vec<Event>, Error>)
        ensures
            r matches Ok(v) ==> v@.len() > 0,
            beacon_json_outcome(input@, r),
    {
        match Beacons::parse(input) {
            Ok(b) => b.to_events(),
            Err(e) => Err(e),
        }
    }

    fn to_events(&self) -> (r: Result<Vec<Event>, Error>)
        ensures
            r matches Ok(v) ==> v@.len() > 0,
            beacon_outcome(self.beacons@, r),
    {
        if self.beacons.len() == 0 {
            return Err(Error::EmptyEvent);
        }
        let mut events: Vec<Event> = Vec::with_capacity(self.beacons.len());
        let mut i: usize = 0;
        while i < self.beacons.len()
            invariant
                i <= self.beacons@.len(),
                events@ == beacon_events(self.beacons@.subrange(0, i as int)),
            decreases self.beacons@.len() - i,
        {
            events.push(to_event(&self.beacons[i]));
            i += 1;
            assert(events@ =~= beacon_events(self.beacons@.subrange(0, i as int)));
        }
        assert(self.beacons@.subrange(0, i as int) =~= self.beacons@);
        Ok(events)
    }
}

} // verus!
