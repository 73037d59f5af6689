//! The machine's clock and calendar: every call into `std::time` and
//! `chrono` that the library makes, and the words in which their contracts
//! are written.
//!
//! No contract in this file is proved. Each states what the documentation
//! or the source of the function it names promises, and Verus takes it on
//! trust.

use crate::calendar::CalendarTime;
use chrono::{Datelike, Local, NaiveDateTime, TimeZone, Timelike};
use std::time::{Duration, SystemTime, SystemTimeError, UNIX_EPOCH};
use vstd::prelude::*;

verus! {

/// `std::time::SystemTime`, a reading of the system's wall clock. Verus
/// carries such a value and sees nothing inside it.
#[verifier::external_type_specification]
#[verifier::external_body]
pub struct ExSystemTime(SystemTime);

/// `std::time::SystemTimeError`, the error of `SystemTime::duration_since`
/// when the reading lies before the instant it is measured from.
#[verifier::external_type_specification]
#[verifier::external_body]
pub struct ExSystemTimeError(SystemTimeError);

/// `SystemTime::now` reads the wall clock. Nothing is claimed of the
/// reading: two calls may even go backwards when the clock is set.
pub assume_specification[ SystemTime::now ]() -> (reading: SystemTime)
;

/// `Duration::as_secs` gives the whole seconds of a duration. Nothing is
/// claimed of the number.
pub assume_specification[ Duration::as_secs ](elapsed: &Duration) -> (secs: u64)
;

/// `Duration::subsec_micros` gives the part of a duration below one second,
/// in whole microseconds; std documents that it is less than one million.
pub assume_specification[ Duration::subsec_micros ](elapsed: &Duration) -> (micros: u32)
    ensures
        micros < 1_000_000,
;

/// `SystemTime::duration_since`, measured from `std::time::UNIX_EPOCH`: the
/// time from the epoch to `reading`, or the error when `reading` lies
/// before the epoch. Nothing is claimed of which it is.
#[verifier::external_body]
pub(crate) fn since_unix_epoch(reading: &SystemTime) -> (elapsed: Result<
    Duration,
    SystemTimeError,
>) {
    reading.duration_since(UNIX_EPOCH)
}

/// What chrono's calendar reads in UTC at `secs` whole seconds from the
/// epoch, and `None` where the calendar, which ends some 262,000 years from
/// the common era on either side, does not reach. It stands for the result
/// of `chrono::NaiveDateTime::from_timestamp_opt` at zero nanoseconds,
/// which depends on the seconds and on nothing else.
pub uninterp spec fn utc_calendar(secs: int) -> Option<CalendarTime>;

/// Whether `reading` can be what a time zone shows at `secs` seconds from
/// the epoch: its fields are in range, and it is what the calendar reads in
/// UTC at an instant less than a day from `secs`, the zone's offset away.
/// At the two ends of the calendar that instant may lie beyond it, and
/// nothing more is said of the reading there.
pub open spec fn is_local_reading_of(secs: int, reading: CalendarTime) -> bool {
    reading.in_range() && exists|at: int|
        secs - 86_400 < at < secs + 86_400 && (#[trigger] utc_calendar(at) is Some ==> utc_calendar(
            at,
        ) == Some(reading))
}

/// `chrono::NaiveDateTime::from_timestamp_opt` at zero nanoseconds, and the
/// six fields of what it returns: the UTC reading at `secs` seconds from
/// the epoch. The contract names the result, claims that the epoch itself
/// is within the calendar, and claims the ranges that chrono documents for
/// `month`, `day`, `hour`, `minute` and `second`.
#[verifier::external_body]
#[allow(deprecated)]
pub(crate) fn utc_calendar_at(secs: i64) -> (reading: Option<CalendarTime>)
    ensures
        reading == utc_calendar(secs as int),
        secs == 0 ==> reading is Some,
        reading matches Some(shown) ==> shown.in_range(),
{
    match NaiveDateTime::from_timestamp_opt(secs, 0) {
        Some(utc) => {
            let (year, month, day) = (utc.year(), utc.month(), utc.day());
            let (hour, minute, second) = (utc.hour(), utc.minute(), utc.second());
            Some(CalendarTime { year, month, day, hour, minute, second })
        },
        None => None,
    }
}

/// `TimeZone::from_utc_datetime` of `chrono::Local` on the UTC instant at
/// `secs` seconds from the epoch, and the six fields of what it returns:
/// the date and time that the machine's time zone shows for that instant.
/// There is a reading exactly where chrono's calendar reaches the instant,
/// as it does at the epoch. Which reading it is depends on the zone that
/// the process runs in; chrono keeps every offset strictly inside a day
/// and reads the fields off the instant moved by the offset, and that is
/// all the contract claims. chrono documents the conversion as one that
/// cannot fail.
#[verifier::external_body]
#[allow(deprecated)]
pub(crate) fn local_calendar_at(secs: i64) -> (reading: Option<CalendarTime>)
    ensures
        reading is Some <==> utc_calendar(secs as int) is Some,
        secs == 0 ==> reading is Some,
        reading matches Some(shown) ==> is_local_reading_of(secs as int, shown),
{
    match NaiveDateTime::from_timestamp_opt(secs, 0) {
        Some(utc) => {
            let local = Local.from_utc_datetime(&utc);
            let (year, month, day) = (local.year(), local.month(), local.day());
            let (hour, minute, second) = (local.hour(), local.minute(), local.second());
            Some(CalendarTime { year, month, day, hour, minute, second })
        },
        None => None,
    }
}

/// The one layout that `local_text_at` is asked for: year, month and day
/// with dashes, a space, then hour, minute and second with colons.
pub open spec fn dashed_layout() -> Seq<char> {
    "%Y-%m-%d %H:%M:%S"@
}

/// `TimeZone::from_utc_datetime` of `chrono::Local` on the UTC instant at
/// `secs` seconds from the epoch, and `DateTime::format` on what it
/// returns: the time that the machine's zone shows for that instant,
/// written in the layout `layout`. There is a text exactly where chrono's
/// calendar reaches the instant. The text depends on the zone; the
/// contract claims only its least length, since chrono writes a year in
/// four characters or more and each other field in two. `requires` keeps
/// to the one layout that the library uses: chrono's formatter fails on a
/// layout with a specifier that it does not know.
#[verifier::external_body]
#[allow(deprecated)]
pub(crate) fn local_text_at(secs: i64, layout: &str) -> (text: Option<String>)
    requires
        layout@ == dashed_layout(),
    ensures
        text is Some <==> utc_calendar(secs as int) is Some,
        text matches Some(written) ==> written@.len() >= 19,
{
    match NaiveDateTime::from_timestamp_opt(secs, 0) {
        Some(utc) => Some(Local.from_utc_datetime(&utc).format(layout).to_string()),
        None => None,
    }
}

} // verus!
