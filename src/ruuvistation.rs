//! Reports sent by the Ruuvi Station Android application: either one tag or
//! a list of tags, each with its own update time written as text.
use vstd::prelude::*;

use crate::clock::{local_reading_of, local_to_utc, naive_parse, parse_naive};
use crate::event::{Error, Event, ToRuuvariEvent};
use crate::json::{
    bool_field, bool_of, copy_number, field, get_field, i32_of, i32_value, i64_field, i64_of,
    json_text, number_field, number_of, opt_str_field, opt_str_of, parse_json, str_field, str_of,
    u32_field, u32_of, Json, JsonNumber,
};

verus! {

/// A report of one phone.
#[derive(Clone, Debug, PartialEq, Eq)]
pub struct Tags {
    pub device_id: String,
    pub event_id: String,
    /// The tag or tags reported.
    pub data: TagData,
    /// When the phone sent the report.
    pub time: String,
}

/// What a report carries: one tag, a list of tags, or neither.
#[derive(Clone, Debug, PartialEq, Eq)]
pub enum TagData {
    Single(Tag),
    Many(Vec<Tag>),
    Neither,
}

/// One tag's latest reading.
#[derive(Clone, Debug, PartialEq, Eq)]
pub struct Tag {
    /// The tag's address.
    pub id: String,
    pub name: Option<String>,
    /// In hPa.
    pub pressure: JsonNumber,
    /// In percent relative humidity.
    pub humidity: JsonNumber,
    /// In °C.
    pub temperature: JsonNumber,
    pub rssi: i64,
    /// When the reading was taken, as text on the phone's local clock.
    pub update_at: String,
    pub raw_data_blob: Blob,
}

/// The raw bytes of a tag's broadcast.
#[derive(Clone, Debug, PartialEq, Eq)]
pub struct Blob {
    pub blob: Vec<i32>,
}

/// The values of a raw-data block.
pub open spec fn blob_of(v: Option<Json>) -> Option<Seq<i32>> {
    match v {
        Some(Json::Object(o)) => match field(o@, "blob"@) {
            Some(Json::Array(items)) => if forall|i: int|
                0 <= i < items@.len() ==> (#[trigger] i32_of(Some(items@[i]))) is Some {
                Some(Seq::new(items@.len(), |i: int| i32_of(Some(items@[i]))->0))
            } else {
                None
            },
            _ => None,
        },
        _ => None,
    }
}

/// The members of a tag that must be present, with their types, though no
/// event carries them.
pub open spec fn tag_shape(o: Seq<(String, Json)>) -> bool {
    &&& number_of(field(o, "accelX"@)) is Some
    &&& number_of(field(o, "accelY"@)) is Some
    &&& number_of(field(o, "accelZ"@)) is Some
    &&& u32_of(field(o, "defaultBackground"@)) is Some
    &&& bool_of(field(o, "favorite"@)) is Some
    &&& number_of(field(o, "voltage"@)) is Some
}

/// Whether `v` is a tag.
pub open spec fn tag_ok(v: Json) -> bool {
    match v {
        Json::Object(o) => {
            &&& str_of(field(o@, "id"@)) is Some
            &&& opt_str_of(field(o@, "name"@)) is Some
            &&& number_of(field(o@, "pressure"@)) is Some
            &&& number_of(field(o@, "humidity"@)) is Some
            &&& number_of(field(o@, "temperature"@)) is Some
            &&& i64_of(field(o@, "rssi"@)) is Some
            &&& str_of(field(o@, "updateAt"@)) is Some
            &&& blob_of(field(o@, "rawDataBlob"@)) is Some
            &&& tag_shape(o@)
        },
        _ => false,
    }
}

/// `t` is the tag that `v` holds.
pub open spec fn tag_of(v: Json, t: Tag) -> bool {
    match v {
        Json::Object(o) => {
            &&& str_of(field(o@, "id"@)) == Some(t.id)
            &&& opt_str_of(field(o@, "name"@)) == Some(t.name)
            &&& number_of(field(o@, "pressure"@)) == Some(t.pressure)
            &&& number_of(field(o@, "humidity"@)) == Some(t.humidity)
            &&& number_of(field(o@, "temperature"@)) == Some(t.temperature)
            &&& i64_of(field(o@, "rssi"@)) == Some(t.rssi)
            &&& str_of(field(o@, "updateAt"@)) == Some(t.update_at)
            &&& blob_of(field(o@, "rawDataBlob"@)) == Some(t.raw_data_blob.blob@)
            &&& tag_shape(o@)
        },
        _ => false,
    }
}

/// Whether a member is there with a value other than `null`.
pub open spec fn present(v: Option<Json>) -> bool {
    v matches Some(j) && j != Json::Null
}

/// Whether `many` is absent or `null`, or a list of tags.
pub open spec fn tag_list_ok(many: Option<Json>) -> bool {
    present(many) ==> (many matches Some(Json::Array(items)) && forall|i: int|
        0 <= i < items@.len() ==> #[trigger] tag_ok(items@[i]))
}

/// Whether the members `tag` and `tags` of a report give its tag data: each
/// that is there holds a tag, or a list of tags.
pub open spec fn tag_data_ok(single: Option<Json>, many: Option<Json>) -> bool {
    &&& present(single) ==> tag_ok(single->0)
    &&& tag_list_ok(many)
}

/// `d` is the tag data that the members `tag` and `tags` give: the single tag
/// where it is there, else the list.
pub open spec fn tag_data_of(single: Option<Json>, many: Option<Json>, d: TagData) -> bool {
    match d {
        TagData::Single(t) => present(single) && tag_list_ok(many) && tag_of(single->0, t),
        TagData::Many(ts) => !present(single) && (many matches Some(Json::Array(items))
            && ts@.len() == items@.len() && forall|i: int|
            0 <= i < items@.len() ==> #[trigger] tag_of(items@[i], ts@[i])),
        TagData::Neither => !present(single) && !present(many),
    }
}

/// Whether `v` is a report.
pub open spec fn tags_ok(v: Json) -> bool {
    match v {
        Json::Object(o) => {
            &&& str_of(field(o@, "deviceId"@)) is Some
            &&& str_of(field(o@, "eventId"@)) is Some
            &&& str_of(field(o@, "time"@)) is Some
            &&& tag_data_ok(field(o@, "tag"@), field(o@, "tags"@))
        },
        _ => false,
    }
}

/// `p` is the report that `v` holds.
pub open spec fn tags_of(v: Json, p: Tags) -> bool {
    match v {
        Json::Object(o) => {
            &&& str_of(field(o@, "deviceId"@)) == Some(p.device_id)
            &&& str_of(field(o@, "eventId"@)) == Some(p.event_id)
            &&& str_of(field(o@, "time"@)) == Some(p.time)
            &&& tag_data_of(field(o@, "tag"@), field(o@, "tags"@), p.data)
        },
        _ => false,
    }
}

/// The tags of a report, in order.
pub open spec fn tag_list(d: TagData) -> Seq<Tag> {
    match d {
        TagData::Single(t) => seq![t],
        TagData::Many(ts) => ts@,
        TagData::Neither => Seq::empty(),
    }
}

/// The calendar time of an update time: read in the 12-hour layout
/// (`Apr 14, 2018 12:22:27 AM`) where that fits, else in the 24-hour layout
/// (`Apr 17, 2018 09:32:00`).
pub open spec fn naive_time(text: Seq<char>) -> Option<i64> {
    match naive_parse(text, "%b %d, %Y %r"@) {
        Some(t) => Some(t),
        None => naive_parse(text, "%b %d, %Y %T"@),
    }
}

/// The event of tag `t`, placed at `timestamp`.
pub open spec fn tag_event(t: Tag, timestamp: i64) -> Event {
    Event {
        beacon_address: t.id,
        air_pressure: t.pressure,
        humidity: t.humidity,
        temperature: t.temperature,
        rssi: t.rssi,
        timestamp,
    }
}

/// `e` is the event of tag `t`: the tag's data, at the UTC time of its update
/// time on the host's clock.
pub open spec fn tag_event_of(t: Tag, e: Event) -> bool {
    &&& e == tag_event(t, e.timestamp)
    &&& (naive_time(t.update_at@) matches Some(n) && local_reading_of(n as int, e.timestamp as int))
}

/// `events` are the events of `tags`, one per tag, in order.
pub open spec fn tag_events(tags: Seq<Tag>, events: Seq<Event>) -> bool {
    &&& events.len() == tags.len()
    &&& forall|i: int| 0 <= i < events.len() ==> tag_event_of(tags[i], #[trigger] events[i])
}

/// What turning `tags` into events may give: no events where there are no
/// tags; else one event per tag, in order, where every tag's update time is
/// read and placed by the host's clock, and `ParseError` where one is not.
pub open spec fn tag_outcome(tags: Seq<Tag>, r: Result<Vec<Event>, Error>) -> bool {
    &&& tags.len() == 0 <==> r == Err::<Vec<Event>, Error>(Error::EmptyEvent)
    &&& (tags.len() > 0 && exists|i: int|
        0 <= i < tags.len() && (#[trigger] naive_time(tags[i].update_at@)) is None) ==> r
        == Err::<Vec<Event>, Error>(Error::ParseError)
    &&& match r {
        Ok(v) => tag_events(tags, v@),
        Err(e) => e == Error::EmptyEvent || e == Error::ParseError,
    }
    &&& exists|times: Seq<Option<i64>>|
        #[trigger] tag_times(tags, times) && tag_result_at(tags, times, r)
}

/// What reading the JSON text `input` as a report may give: a decode error
/// where it is not JSON or not a report, else what its tags give.
pub open spec fn tag_json_outcome(input: Seq<char>, r: Result<Vec<Event>, Error>) -> bool {
    match json_text(input) {
        None => r matches Err(Error::DecodeError(_)),
        Some(j) => if tags_ok(j) {
            exists|p: Tags| #[trigger] tags_of(j, p) && tag_outcome(tag_list(p.data), r)
        } else {
            r matches Err(Error::DecodeError(_))
        },
    }
}

/// Reads the raw-data block of a tag.
fn decode_blob(v: Option<&Json>) -> (r: Option<Blob>)
    ensures
        match r {
            Some(b) => blob_of(
                match v {
                    Some(j) => Some(*j),
                    None => None,
                },
            ) == Some(b.blob@),
            None => blob_of(
                match v {
                    Some(j) => Some(*j),
                    None => None,
                },
            ) is None,
        },
{
    let o = match v {
        Some(Json::Object(o)) => o,
        _ => return None,
    };
    let items = match get_field(o, "blob") {
        Some(Json::Array(items)) => items,
        _ => return None,
    };
    let mut blob: Vec<i32> = Vec::new();
    let mut i: usize = 0;
    while i < items.len()
        invariant
            i <= items@.len(),
            field(o@, "blob"@) == Some(Json::Array(*items)),
            v == Some(&Json::Object(*o)),
            blob@.len() == i,
            forall|k: int| 0 <= k < i ==> i32_of(Some(items@[k])) == Some(#[trigger] blob@[k]),
        decreases items@.len() - i,
    {
        match i32_value(&items[i]) {
            Some(x) => blob.push(x),
            None => return None,
        }
        i += 1;
    }
    assert forall|k: int| 0 <= k < items@.len() implies (#[trigger] i32_of(Some(items@[k]))) is Some by {
        assert(i32_of(Some(items@[k])) == Some(blob@[k]));
    }
    assert(blob@ =~= Seq::new(items@.len(), |k: int| i32_of(Some(items@[k]))->0));
    Some(Blob { blob })
}

/// Reads one tag.
pub fn decode_tag(v: &Json) -> (r: Option<Tag>)
    ensures
        r is Some <==> tag_ok(*v),
        r matches Some(t) ==> tag_of(*v, t),
{
    let o = match v {
        Json::Object(o) => o,
        _ => return None,
    };
    let shape = number_field(o, "accelX").is_some() && number_field(o, "accelY").is_some()
        && number_field(o, "accelZ").is_some() && u32_field(o, "defaultBackground").is_some()
        && bool_field(o, "favorite").is_some() && number_field(o, "voltage").is_some();
    let id = str_field(o, "id");
    let name = opt_str_field(o, "name");
    let pressure = number_field(o, "pressure");
    let humidity = number_field(o, "humidity");
    let temperature = number_field(o, "temperature");
    let rssi = i64_field(o, "rssi");
    let update_at = str_field(o, "updateAt");
    let blob = decode_blob(get_field(o, "rawDataBlob"));
    match (id, name, pressure, humidity, temperature, rssi, update_at, blob) {
        (Some(id), Some(name), Some(pressure), Some(humidity), Some(temperature), Some(rssi), Some(update_at), Some(raw_data_blob)) => {
            if shape {
                Some(Tag { id, name, pressure, humidity, temperature, rssi, update_at, raw_data_blob })
            } else {
                None
            }
        },
        _ => None,
    }
}

/// Whether a member is there with a value other than `null`.
fn is_present(v: Option<&Json>) -> (r: bool)
    ensures
        r == present(
            match v {
                Some(j) => Some(*j),
                None => None,
            },
        ),
{
    match v {
        Some(Json::Null) => false,
        Some(_) => true,
        None => false,
    }
}

/// Reads a list of tags.
fn decode_tag_list(items: &Vec<Json>) -> (r: Option<Vec<Tag>>)
    ensures
        r is Some <==> forall|i: int| 0 <= i < items@.len() ==> #[trigger] tag_ok(items@[i]),
        r matches Some(ts) ==> ts@.len() == items@.len() && forall|i: int|
            0 <= i < items@.len() ==> #[trigger] tag_of(items@[i], ts@[i]),
{
    let mut tags: Vec<Tag> = Vec::new();
    let mut i: usize = 0;
    while i < items.len()
        invariant
            i <= items@.len(),
            tags@.len() == i,
            forall|k: int| 0 <= k < i ==> #[trigger] tag_ok(items@[k]),
            forall|k: int| 0 <= k < i ==> #[trigger] tag_of(items@[k], tags@[k]),
        decreases items@.len() - i,
    {
        match decode_tag(&items[i]) {
            Some(t) => tags.push(t),
            None => return None,
        }
        i += 1;
    }
    Some(tags)
}

impl Tags {
    /// Reads a report from JSON text.
    pub fn parse(input: &str) -> (r: Result<Tags, Error>)
        ensures
            match json_text(input@) {
                Some(j) if tags_ok(j) => r matches Ok(p) && tags_of(j, p),
                _ => r matches Err(Error::DecodeError(_)),
            },
    {
        let doc = match parse_json(input) {
            Ok(j) => j,
            Err(msg) => return Err(Error::DecodeError(msg)),
        };
        match Tags::decode(&doc) {
            Some(p) => Ok(p),
            None => Err(Error::DecodeError("not a Ruuvi Station report".to_string())),
        }
    }

    /// Reads a report from a parsed document.
    pub fn decode(v: &Json) -> (r: Option<Tags>)
        ensures
            r is Some <==> tags_ok(*v),
            r matches Some(p) ==> tags_of(*v, p),
    {
        let o = match v {
            Json::Object(o) => o,
            _ => return None,
        };
        let device_id = match str_field(o, "deviceId") {
            Some(s) => s,
            None => return None,
        };
        let event_id = match str_field(o, "eventId") {
            Some(s) => s,
            None => return None,
        };
        let time = match str_field(o, "time") {
            Some(s) => s,
            None => return None,
        };
        let single = get_field(o, "tag");
        let many = get_field(o, "tags");
        if is_present(many) {
            match many {
                Some(Json::Array(items)) => if decode_tag_list(items).is_none() {
                    return None;
                },
                _ => return None,
            }
        }
        let data = if is_present(single) {
            match decode_tag(single.unwrap()) {
                Some(t) => TagData::Single(t),
                None => return None,
            }
        } else if is_present(many) {
            match many {
                Some(Json::Array(items)) => match decode_tag_list(items) {
                    Some(ts) => TagData::Many(ts),
                    None => return None,
                },
                _ => return None,
            }
        } else {
            TagData::Neither
        };
        Some(Tags { device_id, event_id, data, time })
    }
}

/// The calendar time of an update time: the layouts are tried in order and
/// the first that reads it wins.
pub fn naive_timestamp(input: &str) -> (r: Option<i64>)
    ensures
        r == naive_time(input@),
{
    let layouts: [&str; 2] = ["%b %d, %Y %r", "%b %d, %Y %T"];
    let mut i: usize = 0;
    while i < 2
        invariant
            i <= 2,
            layouts@[0]@ == "%b %d, %Y %r"@,
            layouts@[1]@ == "%b %d, %Y %T"@,
            i >= 1 ==> naive_parse(input@, "%b %d, %Y %r"@) is None,
            i >= 2 ==> naive_parse(input@, "%b %d, %Y %T"@) is None,
        decreases 2 - i,
    {
        match parse_naive(input, layouts[i]) {
            Some(t) => return Some(t),
            None => {},
        }
        i += 1;
    }
    None
}

/// The UTC time of an update time, read in the first layout that fits and
/// placed on the host's clock.
pub fn time_parser(input: &str) -> (r: Result<i64, Error>)
    ensures
        match naive_time(input@) {
            None => r == Err::<i64, Error>(Error::ParseError),
            Some(n) => match r {
                Ok(t) => local_reading_of(n as int, t as int),
                Err(e) => e == Error::ParseError,
            },
        },
{
    match naive_timestamp(input) {
        Some(n) => match local_to_utc(n) {
            Some(t) => Ok(t),
            None => Err(Error::ParseError),
        },
        None => Err(Error::ParseError),
    }
}

/// The UTC times that `time_parser` may give `tags`: one per tag, `None`
/// where no layout reads the tag's update time, and otherwise a time within
/// a day of the calendar time read, or `None` where the host's clock cannot
/// place it.
pub open spec fn tag_times(tags: Seq<Tag>, times: Seq<Option<i64>>) -> bool {
    &&& times.len() == tags.len()
    &&& forall|i: int|
        0 <= i < times.len() ==> match #[trigger] times[i] {
            Some(t) => naive_time(tags[i].update_at@) matches Some(n) && local_reading_of(
                n as int,
                t as int,
            ),
            None => true,
        }
    &&& forall|i: int|
        0 <= i < times.len() && naive_time(tags[i].update_at@) is None ==> (#[trigger] times[i]) is None
}

/// What the events of `tags` are, given the UTC time of each tag (`None`
/// where it has none): `EmptyEvent` without tags, one event per tag, in
/// order, where every tag has a time, `ParseError` otherwise.
pub open spec fn tag_result_at(tags: Seq<Tag>, times: Seq<Option<i64>>, r: Result<Vec<Event>, Error>) -> bool {
    if tags.len() == 0 {
        r == Err::<Vec<Event>, Error>(Error::EmptyEvent)
    } else if forall|i: int| 0 <= i < tags.len() ==> (#[trigger] times[i]) is Some {
        r matches Ok(v) && v@ == Seq::new(tags.len(), |i: int| tag_event(tags[i], times[i]->0))
    } else {
        r == Err::<Vec<Event>, Error>(Error::ParseError)
    }
}

/// The event of one tag, at `timestamp`.
fn to_event(tag: &Tag, timestamp: i64) -> (r: Event)
    ensures
        r == tag_event(*tag, timestamp),
{
    Event {
        beacon_address: tag.id.clone(),
        air_pressure: copy_number(&tag.pressure),
        humidity: copy_number(&tag.humidity),
        temperature: copy_number(&tag.temperature),
        rssi: tag.rssi,
        timestamp,
    }
}

/// The UTC time of one tag's update time, or `None`.
fn tag_time(tag: &Tag) -> (r: Option<i64>)
    ensures
        match r {
            Some(t) => naive_time(tag.update_at@) matches Some(n) && local_reading_of(n as int, t as int),
            None => true,
        },
        naive_time(tag.update_at@) is None ==> r is None,
{
    match time_parser(tag.update_at.as_str()) {
        Ok(t) => Some(t),
        Err(_) => None,
    }
}

/// The UTC time of each tag's update time.
fn tag_times_of(data: &TagData) -> (r: Vec<Option<i64>>)
    ensures
        tag_times(tag_list(*data), r@),
{
    match data {
        TagData::Single(t) => {
            let r = vec![tag_time(t)];
            assert(tag_list(*data)[0] == *t);
            r
        },
        TagData::Many(ts) => {
            let mut times: Vec<Option<i64>> = Vec::with_capacity(ts.len());
            let mut i: usize = 0;
            while i < ts.len()
                invariant
                    i <= ts@.len(),
                    tag_times(ts@.subrange(0, i as int), times@),
                decreases ts@.len() - i,
            {
                times.push(tag_time(&ts[i]));
                i += 1;
                assert(forall|k: int| 0 <= k < i ==> ts@.subrange(0, i as int)[k] == ts@[k]);
                assert(forall|k: int| 0 <= k < i - 1 ==> ts@.subrange(0, i - 1)[k] == ts@[k]);
            }
            assert(ts@.subrange(0, i as int) =~= ts@);
            times
        },
        TagData::Neither => Vec::new(),
    }
}

/// The events of a list of tags, given the UTC time of each.
fn list_events_at(tags: &Vec<Tag>, times: &Vec<Option<i64>>) -> (r: Result<Vec<Event>, Error>)
    requires
        times@.len() == tags@.len(),
    ensures
        tag_result_at(tags@, times@, r),
{
    if tags.len() == 0 {
        return Err(Error::EmptyEvent);
    }
    let mut events: Vec<Event> = Vec::with_capacity(tags.len());
    let mut i: usize = 0;
    while i < tags.len()
        invariant
            i <= tags@.len(),
            tags@.len() > 0,
            times@.len() == tags@.len(),
            events@.len() == i,
            forall|k: int| 0 <= k < i ==> (#[trigger] times@[k]) is Some,
            forall|k: int| 0 <= k < i ==> #[trigger] events@[k] == tag_event(tags@[k], times@[k]->0),
        decreases tags@.len() - i,
    {
        match times[i] {
            Some(t) => events.push(to_event(&tags[i], t)),
            None => {
                assert(times@[i as int] is None);
                return Err(Error::ParseError);
            },
        }
        i += 1;
    }
    assert(events@ =~= Seq::new(tags@.len(), |k: int| tag_event(tags@[k], times@[k]->0)));
    Ok(events)
}

/// The events of a report's tags, given the UTC time of each tag.
pub fn tag_events_at(data: &TagData, times: &Vec<Option<i64>>) -> (r: Result<Vec<Event>, Error>)
    requires
        times@.len() == tag_list(*data).len(),
    ensures
        tag_result_at(tag_list(*data), times@, r),
{
    match data {
        TagData::Single(t) => match times[0] {
            Some(ts) => {
                let v = vec![to_event(t, ts)];
                assert(v@ =~= Seq::new(1, |i: int| tag_event(tag_list(*data)[i], times@[i]->0)));
                Ok(v)
            },
            None => {
                assert(times@[0] is None);
                Err(Error::ParseError)
            },
        },
        TagData::Many(ts) => list_events_at(ts, times),
        TagData::Neither => Err(Error::EmptyEvent),
    }
}

impl ToRuuvariEvent for Tags {
    fn from_json(input: &str) -> (r: Result<Vec<Event>, Error>)
        ensures
            r matches Ok(v) ==> v@.len() > 0,
            tag_json_outcome(input@, r),
    {
        match Tags::parse(input) {
            Ok(p) => {
                let r = p.to_events();
                assert(tags_of(json_text(input@)->0, p) && tag_outcome(tag_list(p.data), r));
                r
            },
            Err(e) => Err(e),
        }
    }

    fn to_events(&self) -> (r: Result<Vec<Event>, Error>)
        ensures
            r matches Ok(v) ==> v@.len() > 0,
            tag_outcome(tag_list(self.data), r),
    {
        let times = tag_times_of(&self.data);
        let r = tag_events_at(&self.data, &times);
        proof {
            let tags = tag_list(self.data);
            if r is Ok {
                let v = r->Ok_0;
                assert forall|i: int| 0 <= i < v@.len() implies tag_event_of(tags[i], #[trigger] v@[i]) by {
                    assert(times@[i] is Some);
                }
            }
            if tags.len() > 0 && exists|i: int| 0 <= i < tags.len() && (#[trigger] naive_time(tags[i].update_at@)) is None {
                let i = choose|i: int| 0 <= i < tags.len() && (#[trigger] naive_time(tags[i].update_at@)) is None;
                assert(times@[i] is None);
            }
            assert(tag_times(tags, times@));
        }
        r
    }
}

} // verus!
