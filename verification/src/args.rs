//! The arguments of a run, and the span of time they stand for.

use crate::error::ContextError;
use crate::timezone::{is_time_zone, local_millis, parse_local_millis, zone_known};
use vstd::prelude::*;

verus! {

/// The arguments of a run.
#[derive(Debug, Default)]
pub struct Args {
    /// The configuration file to use.
    pub file: String,
    /// The length of the span in seconds, where the span ends now.
    pub duration: u64,
    /// The start of the span, written `YYYY-MM-DD hh:mm:ss`.
    pub start: Option<String>,
    /// The end of the span, written `YYYY-MM-DD hh:mm:ss`.
    pub end: Option<String>,
    /// Whether to show the prompt before it is sent.
    pub print_prompt_data: bool,
    /// Whether to stop before the prompt is sent.
    pub dry_run: bool,
}

/// The form in which a start and an end are written: year, month and day,
/// then hours, minutes and seconds.
pub open spec fn date_time_format_text() -> Seq<char> {
    "%Y-%m-%d %H:%M:%S"@
}

/// The instant that a written date and time stands for in a zone.
pub open spec fn instant_of(text: String, zone: Seq<char>) -> Option<int> {
    local_millis(text@, date_time_format_text(), zone)
}

/// The span between a start and an end as read in a zone.
pub open spec fn given_span(start: String, end: String, zone: Seq<char>) -> Result<
    (int, int),
    ContextError,
> {
    match instant_of(start, zone) {
        None => Err(ContextError::InvalidDateTime { text: start }),
        Some(from) => match instant_of(end, zone) {
            None => Err(ContextError::InvalidDateTime { text: end }),
            Some(to) => if from > to {
                Err(ContextError::StartAfterEnd)
            } else {
                Ok((from, to))
            },
        },
    }
}

/// The span of `duration` seconds that ends at `now`.
pub open spec fn trailing_span(duration: u64, now: i64) -> Result<(int, int), ContextError> {
    if duration * 1000 > now {
        Err(ContextError::DurationTooLong)
    } else {
        Ok((now - duration * 1000, now as int))
    }
}

/// Whether the arguments give the start and the end of the span together
/// or not at all.
pub open spec fn range_is_complete(args: Args) -> bool {
    args.start is Some <==> args.end is Some
}

/// The span of a run, in milliseconds after the Unix epoch, for arguments
/// that give start and end together or not at all. A start and an end are
/// read in the zone and take precedence over the duration; without them the
/// span is the duration up to `now`.
pub open spec fn span_of(args: Args, zone: Seq<char>, now: i64) -> Result<
    (int, int),
    ContextError,
> {
    match (args.start, args.end) {
        (Some(start), Some(end)) => given_span(start, end, zone),
        _ => trailing_span(args.duration, now),
    }
}

/// Whether `r` is the span that `expected` describes, or the same error.
pub open spec fn is_span(r: Result<(i64, i64), ContextError>, expected: Result<
    (int, int),
    ContextError,
>) -> bool {
    match expected {
        Ok((from, to)) => r matches Ok(span) && span.0 == from && span.1 == to,
        Err(e) => r == Err::<(i64, i64), ContextError>(e),
    }
}

/// The form in which a start and an end are written.
pub fn date_time_format() -> (r: &'static str)
    ensures
        r@ == date_time_format_text(),
{
    "%Y-%m-%d %H:%M:%S"
}

/// Whether the arguments give the start and the end of the span together or
/// not at all.
pub fn has_complete_range(args: &Args) -> (r: bool)
    ensures
        r == range_is_complete(*args),
{
    args.start.is_some() == args.end.is_some()
}

/// The start and the end of a run's span of time, `now_millis` being the
/// present instant, for arguments that give start and end together or not at
/// all. A span that comes back does not end before it starts.
pub fn build_start_and_end(args: &Args, time_zone: &String, now_millis: i64) -> (r: Result<
    (i64, i64),
    ContextError,
>)
    requires
        range_is_complete(*args),
    ensures
        !zone_known(time_zone@) ==> r == Err::<(i64, i64), ContextError>(
            ContextError::UnknownTimeZone { name: *time_zone },
        ),
        zone_known(time_zone@) ==> is_span(r, span_of(*args, time_zone@, now_millis)),
        r matches Ok(span) ==> span.0 <= span.1,
{
    if !is_time_zone(time_zone.as_str()) {
        return Err(ContextError::UnknownTimeZone { name: time_zone.clone() });
    }
    match (&args.start, &args.end) {
        (Some(start), Some(end)) => {
            let from = match parse_local_millis(
                start.as_str(),
                date_time_format(),
                time_zone.as_str(),
            ) {
                Some(from) => from,
                None => {
                    return Err(ContextError::InvalidDateTime { text: start.clone() });
                },
            };
            let to = match parse_local_millis(end.as_str(), date_time_format(), time_zone.as_str()) {
                Some(to) => to,
                None => {
                    return Err(ContextError::InvalidDateTime { text: end.clone() });
                },
            };
            if from > to {
                Err(ContextError::StartAfterEnd)
            } else {
                Ok((from, to))
            }
        },
        _ => {
            if now_millis < 0 {
                return Err(ContextError::DurationTooLong);
            }
            let now: u64 = now_millis as u64;
            match args.duration.checked_mul(1000) {
                Some(length) => {
                    if length > now {
                        Err(ContextError::DurationTooLong)
                    } else {
                        Ok((((now - length) as i64), now_millis))
                    }
                },
                None => Err(ContextError::DurationTooLong),
            }
        },
    }
}

} // verus!
