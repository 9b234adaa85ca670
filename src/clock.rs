//! The modification time of an entry as `month day hour:minute` text.

use chrono::TimeZone;
use vstd::prelude::*;

verus! {

/// The earliest second, counted from the Unix epoch, of year 1.
pub const FIRST_SECOND_OF_YEAR_ONE: i64 = -62_135_596_800;

/// The last second, counted from the Unix epoch, of year 9999.
pub const LAST_SECOND_OF_YEAR_9999: i64 = 253_402_300_799;

/// The clock text of a moment counted in seconds from the Unix epoch on the
/// UTC calendar: abbreviated month, space-padded day, hour and minute.
pub uninterp spec fn clock_text(secs: int) -> Seq<char>;

/// Relies on chrono's `DateTime::from_timestamp` and its `format` with
/// `%b %e %H:%M`: the result is a function of the moment alone, and every
/// moment of the years 1 to 9999 is in chrono's range.
#[verifier::external_body]
fn format_clock(secs: i64) -> (r: Option<String>)
    ensures
        r is Some ==> r->0@ == clock_text(secs as int),
        FIRST_SECOND_OF_YEAR_ONE <= secs <= LAST_SECOND_OF_YEAR_9999 ==> r is Some,
{
    match chrono::DateTime::from_timestamp(secs, 0) {
        Some(moment) => Some(moment.format("%b %e %H:%M").to_string()),
        None => None,
    }
}

/// Relies on chrono's `Local` time zone: the offset, in seconds east of UTC,
/// that holds at a moment. Every offset chrono gives lies strictly within a
/// day, and every moment of the years 1 to 9999 has one.
#[verifier::external_body]
fn local_offset(secs: i64) -> (r: Option<i32>)
    ensures
        r is Some ==> -86_400 < r->0 < 86_400,
        FIRST_SECOND_OF_YEAR_ONE <= secs <= LAST_SECOND_OF_YEAR_9999 ==> r is Some,
{
    match chrono::DateTime::from_timestamp(secs, 0) {
        Some(moment) => Some(chrono::Local.offset_from_utc_datetime(&moment.naive_utc()).local_minus_utc()),
        None => None,
    }
}

/// The clock text of the moment `secs` seen at `offset` seconds east of UTC;
/// `None` where the shifted moment is outside the range of dates.
pub fn local_clock(secs: i64, offset: i32) -> (r: Option<String>)
    ensures
        r is Some ==> r->0@ == clock_text(secs + offset),
        FIRST_SECOND_OF_YEAR_ONE <= secs + offset <= LAST_SECOND_OF_YEAR_9999 ==> r is Some,
{
    if offset >= 0 && secs > i64::MAX - offset as i64 {
        None
    } else if offset < 0 && secs < i64::MIN - offset as i64 {
        None
    } else {
        format_clock(secs + offset as i64)
    }
}

/// The clock text of the moment `secs` in the machine's local time zone;
/// always present for moments at least a day inside the years 1 to 9999.
pub fn modification_clock(secs: i64) -> (r: Option<String>)
    ensures
        FIRST_SECOND_OF_YEAR_ONE + 86_399 <= secs <= LAST_SECOND_OF_YEAR_9999 - 86_399 ==> r is Some,
        r is Some ==> exists|offset: int| -86_400 < offset < 86_400 && r->0@ == #[trigger] clock_text(secs + offset),
{
    match local_offset(secs) {
        Some(offset) => local_clock(secs, offset),
        None => None,
    }
}

} // verus!
