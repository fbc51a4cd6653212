//! Calendar times, read from text and placed on the UTC time line through the
//! host's time zone.
use vstd::prelude::*;

verus! {

/// The number of seconds in a day; no time zone is that far from UTC.
pub const SECONDS_PER_DAY: i64 = 86400;

/// The calendar time that `text` spells in the strftime `layout`, as seconds
/// since 1970-01-01 00:00:00 on the same clock (no time zone applied).
pub uninterp spec fn naive_parse(text: Seq<char>, layout: Seq<char>) -> Option<i64>;

/// Relies on `chrono::NaiveDateTime::parse_from_str`, read back with
/// `and_utc().timestamp()`: the calendar time that `text` spells in `layout`.
#[verifier::external_body]
pub(crate) fn parse_naive(text: &str, layout: &str) -> (r: Option<i64>)
    ensures
        r == naive_parse(text@, layout@),
{
    chrono::NaiveDateTime::parse_from_str(text, layout).ok().map(|t| t.and_utc().timestamp())
}

/// Relies on `chrono::Local`'s `from_local_datetime(..).earliest()`: the UTC
/// time of the calendar time `naive` on the host's clock, the earlier one
/// where the clock shows it twice, and `None` where the clock skips it. The
/// zone's offset is a `chrono::FixedOffset`, less than a day either way.
#[verifier::external_body]
pub(crate) fn local_to_utc(naive: i64) -> (r: Option<i64>)
    ensures
        r matches Some(u) ==> naive - SECONDS_PER_DAY < u < naive + SECONDS_PER_DAY,
{
    let t = chrono::DateTime::from_timestamp(naive, 0)?.naive_utc();
    let local = <chrono::Local as chrono::TimeZone>::from_local_datetime(&chrono::Local, &t);
    local.earliest().map(|d| d.timestamp())
}

/// Whether `utc` can be the UTC time of the calendar time `naive` on some
/// clock: they differ by less than a day.
pub open spec fn local_reading_of(naive: int, utc: int) -> bool {
    naive - SECONDS_PER_DAY < utc < naive + SECONDS_PER_DAY
}

} // verus!
