use ruuvari::dispatch::{convert_with, default_order, dispatch, first_success, Adapter};
use ruuvari::Error;

const BEACON: &str = r##"{"beacons":[{"beaconAddress":"D7:58:D2:87:08:F8","beaconType":"ruuvitag","distance":2.5337382706296463,"eddystoneUrlData":{"url":"https://ruu.vi/#BCwVAMCUr"},"hashcode":1141403717,"isBlocked":false,"lastMinuteSeen":25396428,"lastSeen":1523785721504,"manufacturer":65194,"rssi":-60,"ruuviData":{"airPressure":993,"humidity":22,"temperature":21},"txPower":-48}],"reader":"Scanner 1"}"##;

const TAG: &str = r##"{"deviceId":"854af65f-13db-4082-b07e-89129690d275","eventId":"9e6329dd-06eb-474c-9d1d-9b4373704a6d","tag":{"accelX":0.0,"accelY":0.0,"accelZ":0.0,"defaultBackground":1,"favorite":true,"humidity":22.0,"id":"D7:58:D2:87:08:F8","name":"Devitagi","pressure":996.0,"rawDataBlob":{"blob":[4,44,20,0,-63,-64]},"rssi":-57,"temperature":20.0,"updateAt":"Apr 14, 2018 12:22:27 AM","voltage":0.0},"time":"Apr 14, 2018 12:22:27 AM"}"##;

#[test]
fn default_order_tries_ruuvi_station_first() {
    assert_eq!(default_order(), vec![Adapter::RuuviStation, Adapter::BeaconScanner]);
}

#[test]
fn dispatch_finds_beacon_scanner() {
    let (a, events) = dispatch(&default_order(), BEACON).expect("dispatch");
    assert_eq!(a, Adapter::BeaconScanner);
    assert_eq!(events.len(), 1);
    assert_eq!(events[0].rssi, -60);
}

#[test]
fn dispatch_finds_ruuvi_station() {
    let (a, events) = dispatch(&default_order(), TAG).expect("dispatch");
    assert_eq!(a, Adapter::RuuviStation);
    assert_eq!(events.len(), 1);
    assert_eq!(events[0].rssi, -57);
}

#[test]
fn dispatch_gives_up_on_unknown_reports() {
    assert!(dispatch(&default_order(), "{\"hello\":1}").is_none());
    assert!(dispatch(&default_order(), "not json").is_none());
    assert!(dispatch(&Vec::new(), TAG).is_none());
}

#[test]
fn dispatch_skips_adapters_that_give_nothing() {
    let empty_tags = r#"{"deviceId":"d","eventId":"e","time":"t","beacons":[],"reader":"r"}"#;
    assert!(dispatch(&default_order(), empty_tags).is_none());
    assert_eq!(convert_with(Adapter::RuuviStation, empty_tags), Err(Error::EmptyEvent));
    assert_eq!(convert_with(Adapter::BeaconScanner, empty_tags), Err(Error::EmptyEvent));
}

#[test]
fn dispatch_follows_the_given_order() {
    let order = vec![Adapter::BeaconScanner];
    assert!(dispatch(&order, TAG).is_none());
    assert_eq!(dispatch(&order, BEACON).map(|(a, _)| a), Some(Adapter::BeaconScanner));
}

#[test]
fn first_success_takes_the_first_ok_in_order() {
    let order = default_order();
    let ok = convert_with(Adapter::BeaconScanner, BEACON);
    let r = first_success(&order, vec![Err(Error::ParseError), ok]);
    let (a, events) = r.expect("a success");
    assert_eq!(a, Adapter::BeaconScanner);
    assert_eq!(events.len(), 1);
    let both = first_success(
        &order,
        vec![convert_with(Adapter::RuuviStation, TAG), convert_with(Adapter::BeaconScanner, BEACON)],
    );
    assert_eq!(both.map(|(a, _)| a), Some(Adapter::RuuviStation));
    assert!(first_success(&order, vec![Err(Error::EmptyEvent), Err(Error::ParseError)]).is_none());
}
