//! What holds of every report, stated over the contracts of the adapters.
use vstd::prelude::*;

use crate::beaconscanner::{
    beacon_event, beacon_json_outcome, beacon_of, beacon_outcome, beacons_of, seen_seconds, Beacon,
};
use crate::event::{Error, Event};
use crate::json::{field, json_text, lemma_field_ignores_other_member, str_of, Json};
use crate::ruuvistation::{
    present, tag_event_of, tag_json_outcome, tag_list, tag_of, tag_outcome, tag_result_at, tags_of,
    Tag, TagData,
};

verus! {

/// A Beacon Scanner report with readings converts, and gives one event per
/// reading, in order, each with the reading's data and its epoch second.
pub proof fn lemma_beacon_events_per_reading(input: Seq<char>, r: Result<Vec<Event>, Error>)
    requires
        json_text(input) matches Some(j) && beacons_of(j) matches Some(p) && p.0.len() > 0,
        beacon_json_outcome(input, r),
    ensures
        r matches Ok(v) && {
            let p = beacons_of(json_text(input)->0)->0;
            &&& v@.len() == p.0.len()
            &&& forall|i: int|
                0 <= i < v@.len() ==> #[trigger] v@[i] == beacon_event(
                    p.0[i],
                    (p.0[i].last_seen / 1000) as i64,
                )
        },
{
}

/// A later reading is never placed earlier: the time of an event does not
/// decrease as the reading's `last_seen` grows.
pub proof fn lemma_beacon_time_monotonic(earlier: Beacon, later: Beacon)
    requires
        earlier.last_seen <= later.last_seen,
    ensures
        beacon_event(earlier, seen_seconds(earlier)).timestamp <= beacon_event(
            later,
            seen_seconds(later),
        ).timestamp,
{
    assert(earlier.last_seen / 1000 <= later.last_seen / 1000) by (nonlinear_arith)
        requires
            earlier.last_seen <= later.last_seen,
    ;
}

/// A member with a name the reading schema does not use, added to a reading,
/// changes nothing in what is read from it.
pub proof fn lemma_beacon_ignores_unknown_member(
    members: Seq<(String, Json)>,
    with_extra: Vec<(String, Json)>,
    without: Vec<(String, Json)>,
    extra: (String, Json),
)
    requires
        without@ == members,
        with_extra@ == members.push(extra),
        extra.0@ != "beaconAddress"@,
        extra.0@ != "beaconType"@,
        extra.0@ != "distance"@,
        extra.0@ != "eddystoneUrlData"@,
        extra.0@ != "hashcode"@,
        extra.0@ != "isBlocked"@,
        extra.0@ != "lastMinuteSeen"@,
        extra.0@ != "lastSeen"@,
        extra.0@ != "manufacturer"@,
        extra.0@ != "rssi"@,
        extra.0@ != "ruuviData"@,
        extra.0@ != "txPower"@,
    ensures
        beacon_of(Json::Object(with_extra)) == beacon_of(Json::Object(without)),
{
    lemma_field_ignores_other_member(members, extra, "beaconAddress"@);
    lemma_field_ignores_other_member(members, extra, "beaconType"@);
    lemma_field_ignores_other_member(members, extra, "distance"@);
    lemma_field_ignores_other_member(members, extra, "eddystoneUrlData"@);
    lemma_field_ignores_other_member(members, extra, "hashcode"@);
    lemma_field_ignores_other_member(members, extra, "isBlocked"@);
    lemma_field_ignores_other_member(members, extra, "lastMinuteSeen"@);
    lemma_field_ignores_other_member(members, extra, "lastSeen"@);
    lemma_field_ignores_other_member(members, extra, "manufacturer"@);
    lemma_field_ignores_other_member(members, extra, "rssi"@);
    lemma_field_ignores_other_member(members, extra, "ruuviData"@);
    lemma_field_ignores_other_member(members, extra, "txPower"@);
}

/// A Beacon Scanner report without readings gives `EmptyEvent`.
pub proof fn lemma_beacon_no_readings(input: Seq<char>, r: Result<Vec<Event>, Error>)
    requires
        json_text(input) matches Some(j) && beacons_of(j) matches Some(p) && p.0.len() == 0,
        beacon_json_outcome(input, r),
    ensures
        r == Err::<Vec<Event>, Error>(Error::EmptyEvent),
{
}

/// `e` is the event of the tag that `item` holds.
pub open spec fn event_of_tag_json(item: Json, e: Event) -> bool {
    exists|t: Tag| tag_of(item, t) && #[trigger] tag_event_of(t, e)
}

/// A Ruuvi Station report that converts gives one event where it carries a
/// single tag (whether or not it also carries a list), and one event per
/// listed tag, in order, where it carries only a list; each event is that
/// tag's, at the UTC time of its own update time.
pub proof fn lemma_tag_events_per_tag(input: Seq<char>, v: Vec<Event>)
    requires
        tag_json_outcome(input, Ok(v)),
    ensures
        json_text(input) matches Some(Json::Object(o)) && {
            &&& present(field(o@, "tag"@)) ==> v@.len() == 1 && event_of_tag_json(
                field(o@, "tag"@)->0,
                v@[0],
            )
            &&& !present(field(o@, "tag"@)) && present(field(o@, "tags"@)) ==> (field(o@, "tags"@) matches Some(Json::Array(items))
                && v@.len() == items@.len() && forall|i: int|
                0 <= i < items@.len() ==> #[trigger] event_of_tag_json(items@[i], v@[i]))
        },
{
    let j = json_text(input)->0;
    let p = choose|p| #[trigger] tags_of(j, p) && tag_outcome(
        tag_list(p.data),
        Ok(v),
    );
    let o = j->Object_0;
    match p.data {
        TagData::Single(t) => {
            assert(tag_list(p.data)[0] == t);
            assert(tag_event_of(t, v@[0]));
            assert(tag_of(field(o@, "tag"@)->0, t));
        },
        TagData::Many(ts) => {
            let items = field(o@, "tags"@)->0->Array_0;
            assert forall|i: int| 0 <= i < items@.len() implies #[trigger] event_of_tag_json(
                items@[i],
                v@[i],
            ) by {
                assert(tag_of(items@[i], ts@[i]));
                assert(tag_event_of(ts@[i], v@[i]));
            }
        },
        TagData::Neither => {},
    }
}

/// A Ruuvi Station report that carries neither a tag nor a list of tags
/// gives `EmptyEvent`.
pub proof fn lemma_tag_neither_is_empty(input: Seq<char>, r: Result<Vec<Event>, Error>)
    requires
        json_text(input) matches Some(Json::Object(o)) && {
            &&& str_of(field(o@, "deviceId"@)) is Some
            &&& str_of(field(o@, "eventId"@)) is Some
            &&& str_of(field(o@, "time"@)) is Some
            &&& !present(field(o@, "tag"@))
            &&& !present(field(o@, "tags"@))
        },
        tag_json_outcome(input, r),
    ensures
        r == Err::<Vec<Event>, Error>(Error::EmptyEvent),
{
    let j = json_text(input)->0;
    let p = choose|p| #[trigger] tags_of(j, p) && tag_outcome(
        tag_list(p.data),
        r,
    );
    assert(p.data == TagData::Neither);
}

/// Converting the same readings twice gives the same outcome: the same
/// events in the same order, or the same error.
pub proof fn lemma_beacon_conversion_deterministic(
    readings: Seq<Beacon>,
    first: Result<Vec<Event>, Error>,
    second: Result<Vec<Event>, Error>,
)
    requires
        beacon_outcome(readings, first),
        beacon_outcome(readings, second),
    ensures
        match (first, second) {
            (Ok(a), Ok(b)) => a@ == b@,
            (Err(a), Err(b)) => a == b,
            _ => false,
        },
{
}

/// Converting the same tags twice, where the host's clock gives their times
/// the same way, gives the same outcome: the same events in the same order,
/// or the same error.
pub proof fn lemma_tag_conversion_deterministic(
    tags: Seq<Tag>,
    times: Seq<Option<i64>>,
    first: Result<Vec<Event>, Error>,
    second: Result<Vec<Event>, Error>,
)
    requires
        tag_result_at(tags, times, first),
        tag_result_at(tags, times, second),
    ensures
        match (first, second) {
            (Ok(a), Ok(b)) => a@ == b@,
            (Err(a), Err(b)) => a == b,
            _ => false,
        },
{
}

} // verus!
