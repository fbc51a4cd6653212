use ruuvari::beaconscanner::Beacons;
use ruuvari::json::JsonNumber;
use ruuvari::{Error, Event, ToRuuvariEvent};

const ONE_BEACON: &str = r##"{"beacons":[{"beaconAddress":"D7:58:D2:87:08:F8","beaconType":"ruuvitag","distance":2.5337382706296463,"eddystoneUrlData":{"url":"https://ruu.vi/#BCwVAMCUr"},"hashcode":1141403717,"isBlocked":false,"lastMinuteSeen":25396428,"lastSeen":1523785721504,"manufacturer":65194,"rssi":-60,"ruuviData":{"airPressure":993,"humidity":22,"temperature":21},"txPower":-48}],"reader":"Scanner 1"}"##;

const TWO_BEACONS: &str = r##"{"beacons":[{"beaconAddress":"D7:58:D2:87:08:F8","beaconType":"ruuvitag","distance":1.939022861124338,"eddystoneUrlData":{"url":"https://ruu.vi/#BDQXAMn0r"},"hashcode":1141403717,"isBlocked":false,"lastMinuteSeen":25396939,"lastSeen":1523816361122,"manufacturer":65194,"rssi":-57,"ruuviData":{"airPressure":1017,"humidity":26,"temperature":23},"txPower":-48},{"beaconAddress":"D1:D8:2A:09:D6:C1","beaconType":"ruuvitag","distance":15.18942027557396,"eddystoneUrlData":{"url":"https://ruu.vi/#BIgWAMn0T"},"hashcode":984684823,"isBlocked":false,"lastMinuteSeen":25396939,"lastSeen":1523816361120,"manufacturer":65194,"rssi":-81,"ruuviData":{"airPressure":1017,"humidity":68,"temperature":22},"txPower":-48}],"reader":"Scanner 1"}"##;

#[test]
fn beaconscanner_test_json() {
    let event: Beacons = Beacons::parse(ONE_BEACON).expect("parse");
    assert_eq!(event.reader, "Scanner 1");
}

#[test]
fn test_json_multiple_beacons() {
    let event: Beacons = Beacons::parse(TWO_BEACONS).expect("parse");
    assert_eq!(event.beacons.len(), 2);
}

#[test]
fn beaconscanner_test_json_to_event1() {
    let event: Vec<Event> = Beacons::from_json(ONE_BEACON).expect("from_json");
    assert_eq!(event.len(), 1);
}

#[test]
fn beacon_event_carries_reading() {
    let events = Beacons::from_json(ONE_BEACON).expect("from_json");
    assert_eq!(events.len(), 1);
    let e = &events[0];
    assert_eq!(e.beacon_address, "D7:58:D2:87:08:F8");
    assert_eq!(e.air_pressure, JsonNumber::PosInt(993));
    assert_eq!(e.humidity, JsonNumber::PosInt(22));
    assert_eq!(e.temperature, JsonNumber::PosInt(21));
    assert_eq!(e.rssi, -60);
    assert_eq!(e.timestamp, 1523785721);
}

#[test]
fn beacon_events_keep_order() {
    let events = Beacons::from_json(TWO_BEACONS).expect("from_json");
    assert_eq!(events.len(), 2);
    assert_eq!(events[0].beacon_address, "D7:58:D2:87:08:F8");
    assert_eq!(events[0].rssi, -57);
    assert_eq!(events[0].humidity, JsonNumber::PosInt(26));
    assert_eq!(events[1].beacon_address, "D1:D8:2A:09:D6:C1");
    assert_eq!(events[1].rssi, -81);
    assert_eq!(events[1].humidity, JsonNumber::PosInt(68));
    assert_eq!(events[0].timestamp, 1523816361);
    assert_eq!(events[1].timestamp, 1523816361);
}

#[test]
fn beacon_empty_list_is_empty_event() {
    let r = Beacons::from_json(r#"{"beacons":[],"reader":"Scanner 1"}"#);
    assert_eq!(r, Err(Error::EmptyEvent));
}

#[test]
fn beacon_not_json_is_decode_error() {
    let r = Beacons::from_json("{\"beacons\":");
    assert!(matches!(r, Err(Error::DecodeError(_))));
}

#[test]
fn beacon_missing_field_is_decode_error() {
    let without_rssi = ONE_BEACON.replace("\"rssi\":-60,", "");
    assert!(matches!(Beacons::from_json(&without_rssi), Err(Error::DecodeError(_))));
    let without_tx_power = ONE_BEACON.replace(",\"txPower\":-48", "");
    assert!(matches!(Beacons::from_json(&without_tx_power), Err(Error::DecodeError(_))));
}

#[test]
fn beacon_wrong_type_is_decode_error() {
    let text_rssi = ONE_BEACON.replace("\"rssi\":-60", "\"rssi\":\"-60\"");
    assert!(matches!(Beacons::from_json(&text_rssi), Err(Error::DecodeError(_))));
    let negative_seen = ONE_BEACON.replace("1523785721504", "-1");
    assert!(matches!(Beacons::from_json(&negative_seen), Err(Error::DecodeError(_))));
}

#[test]
fn beacon_unknown_fields_are_ignored() {
    let extra = ONE_BEACON.replace("\"reader\"", "\"firmware\":\"2.1\",\"reader\"");
    assert_eq!(Beacons::from_json(&extra).expect("from_json").len(), 1);
}

#[test]
fn beacon_float_reading_keeps_its_value() {
    let float = ONE_BEACON.replace("\"airPressure\":993", "\"airPressure\":993.25");
    let events = Beacons::from_json(&float).expect("from_json");
    assert_eq!(events[0].air_pressure, JsonNumber::Float("993.25".to_string()));
}

#[test]
fn beacon_conversion_is_deterministic() {
    let b = Beacons::parse(TWO_BEACONS).expect("parse");
    assert_eq!(b.to_events(), b.to_events());
}

#[test]
fn beacon_huge_last_seen_still_converts() {
    let huge = ONE_BEACON.replace("1523785721504", "18446744073709551615");
    let events = Beacons::from_json(&huge).expect("from_json");
    assert_eq!(events.len(), 1);
    assert_eq!(events[0].timestamp, 18446744073709551);
}

#[test]
fn beacon_time_truncates_to_whole_seconds() {
    let early = ONE_BEACON.replace("1523785721504", "1523785721000");
    let late = ONE_BEACON.replace("1523785721504", "1523785721999");
    assert_eq!(Beacons::from_json(&early).expect("from_json")[0].timestamp, 1523785721);
    assert_eq!(Beacons::from_json(&late).expect("from_json")[0].timestamp, 1523785721);
}
