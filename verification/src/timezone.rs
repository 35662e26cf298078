//! Local time. Which zones exist, what an instant reads in a zone and which
//! instant a local reading stands for is the knowledge of `chrono` and of the
//! zone database in `chrono-tz`; this module gives each of the three a name.

use vstd::prelude::*;

verus! {

/// Whether the zone database knows a zone of this name.
pub uninterp spec fn zone_known(zone: Seq<char>) -> bool;

/// What the instant `millis` milliseconds after the Unix epoch reads in the
/// zone: date, time of day and the zone's abbreviation. `None` where the zone
/// is unknown or the instant is out of the calendar's range.
pub uninterp spec fn local_time_text(millis: int, zone: Seq<char>) -> Option<Seq<char>>;

/// The instant, in milliseconds after the Unix epoch, at which the zone's
/// clocks read `text`, a date and time of day written as `format` says.
/// `None` where the zone is unknown, the text is not of that form, or the
/// reading occurs twice or never in the zone.
pub uninterp spec fn local_millis(text: Seq<char>, format: Seq<char>, zone: Seq<char>) -> Option<
    int,
>;

/// Whether `r` is the text that `expected` describes.
pub open spec fn is_some_text(r: Option<String>, expected: Option<Seq<char>>) -> bool {
    match expected {
        Some(t) => r matches Some(s) && s@ == t,
        None => r is None,
    }
}

/// Whether `r` is the number that `expected` describes.
pub open spec fn is_some_millis(r: Option<i64>, expected: Option<int>) -> bool {
    match expected {
        Some(n) => r matches Some(m) && m == n,
        None => r is None,
    }
}

/// `chrono_tz::Tz::from_str`: whether the name parses as a zone.
#[verifier::external_body]
pub(crate) fn is_time_zone(zone: &str) -> (r: bool)
    ensures
        r == zone_known(zone@),
{
    zone.parse::<chrono_tz::Tz>().is_ok()
}

/// `chrono::DateTime::from_timestamp_millis`, `DateTime::with_timezone` and
/// the `Display` of the result, for the zone that `chrono_tz::Tz::from_str`
/// makes of the name.
#[verifier::external_body]
pub(crate) fn format_local_time(millis: i64, zone: &str) -> (r: Option<String>)
    ensures
        is_some_text(r, local_time_text(millis as int, zone@)),
{
    let tz: chrono_tz::Tz = zone.parse().ok()?;
    let utc = chrono::DateTime::from_timestamp_millis(millis)?;
    Some(format!("{}", utc.with_timezone(&tz)))
}

/// `chrono::NaiveDateTime::parse_from_str` with the given format,
/// `TimeZone::from_local_datetime` for the zone that
/// `chrono_tz::Tz::from_str` makes of the name, the single instant of the
/// result if it has one, and `DateTime::timestamp_millis` of that.
#[verifier::external_body]
pub(crate) fn parse_local_millis(text: &str, format: &str, zone: &str) -> (r: Option<i64>)
    ensures
        is_some_millis(r, local_millis(text@, format@, zone@)),
{
    let tz: chrono_tz::Tz = zone.parse().ok()?;
    let naive = chrono::NaiveDateTime::parse_from_str(text, format).ok()?;
    let local = chrono::TimeZone::from_local_datetime(&tz, &naive).single()?;
    Some(local.timestamp_millis())
}

} // verus!
