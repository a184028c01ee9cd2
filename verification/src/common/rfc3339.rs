//! The text form of a point in time: an RFC 3339 string in UTC. The calendar
//! arithmetic and the formatting are the work of the `chrono` crate and are
//! not verified here.

use chrono::datetime::DateTime;
use chrono::naive::datetime::NaiveDateTime;
use chrono::offset::utc::UTC;
use vstd::prelude::*;

verus! {

/// The last second, counted from the epoch, that has a calendar form: the
/// end of 31 December of the year 262143.
pub const MAX_CALENDAR_SECONDS: i64 = 8_210_298_412_799;

/// The RFC 3339 text, with the offset written as `+00:00`, of the moment that
/// lies `seconds` whole seconds and `nanoseconds` nanoseconds after the epoch.
pub uninterp spec fn rfc3339_utc(seconds: int, nanoseconds: int) -> Seq<char>;

/// Formats a moment with `chrono`: `NaiveDateTime::from_timestamp` makes the
/// date and time from the two counts, `DateTime::from_utc` places it in UTC,
/// and `DateTime::to_rfc3339` writes it.
///
/// Trusted, not proved: the text depends on the two counts alone. The counts
/// that `requires` admits are among those for which `from_timestamp` finds a
/// date within its range of years and so does not panic.
#[verifier::external_body]
pub(crate) fn format_rfc3339_utc(seconds: i64, nanoseconds: u32) -> (text: String)
    requires
        0 <= seconds <= MAX_CALENDAR_SECONDS,
        nanoseconds < 1_000_000_000,
    ensures
        text@ == rfc3339_utc(seconds as int, nanoseconds as int),
{
    let naive = NaiveDateTime::from_timestamp(seconds, nanoseconds);
    let datetime: DateTime<UTC> = DateTime::from_utc(naive, UTC);
    datetime.to_rfc3339()
}

} // verus!
