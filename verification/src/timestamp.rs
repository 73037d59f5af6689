//! A point in time as a count of microseconds since the Unix epoch.

use crate::calendar::CalendarTime;
use crate::clock::{
    is_local_reading_of, local_calendar_at, since_unix_epoch, utc_calendar, utc_calendar_at,
};
use std::cmp::Ordering;
use std::time::SystemTime;
use vstd::prelude::*;
use vstd::std_specs::cmp::PartialOrdSpec;
use vstd::string::*;

verus! {

/// Why the wall clock gave no timestamp.
#[derive(Clone, Copy, Debug, PartialEq, Eq, Structural)]
pub enum ClockError {
    /// The clock shows a time before the epoch.
    BeforeEpoch,
    /// The clock shows a time too far from the epoch: its microseconds do
    /// not fit in 64 bits, or the calendar does not reach it.
    OutOfRange,
}

/// Microseconds since 1970-01-01 00:00:00 UTC: negative before the epoch,
/// and zero for a timestamp that was never set.
#[derive(Debug, Clone, Copy, PartialEq, Eq, Structural, Ord)]
pub struct Timestamp {
    microseconds_since_epoch: i64,
}

impl View for Timestamp {
    type V = int;

    /// The count of microseconds.
    closed spec fn view(&self) -> int {
        self.microseconds_since_epoch as int
    }
}

/// The text of a timestamp that was never set.
pub open spec fn unset_text() -> Seq<char> {
    "0000/00/00 00:00:00"@
}

/// The whole seconds in `micros` microseconds, rounded toward zero.
pub open spec fn whole_seconds_of(micros: int) -> int {
    if micros >= 0 {
        micros / 1_000_000
    } else {
        -((-micros) / 1_000_000)
    }
}

/// The seconds whose calendar reading the text of a timestamp of `micros`
/// microseconds shows: its whole seconds where the calendar reaches them,
/// and else those of the epoch.
pub open spec fn shown_seconds_of(micros: int) -> int {
    if utc_calendar(whole_seconds_of(micros)) is Some {
        whole_seconds_of(micros)
    } else {
        0
    }
}

/// The microseconds in `secs` seconds and `subsec_micros` microseconds.
pub open spec fn micros_of_parts(secs: int, subsec_micros: int) -> int {
    secs * 1_000_000 + subsec_micros
}

/// Whether `stamp` is what `secs` seconds and `subsec_micros` microseconds
/// after the epoch make: the timestamp of their count where the count fits
/// in 64 bits, and `OutOfRange` where it does not.
pub open spec fn is_stamp_of_parts(
    stamp: Result<Timestamp, ClockError>,
    secs: int,
    subsec_micros: int,
) -> bool {
    match stamp {
        Ok(made) => made@ == micros_of_parts(secs, subsec_micros) && made@ <= i64::MAX,
        Err(error) => error == ClockError::OutOfRange && micros_of_parts(secs, subsec_micros)
            > i64::MAX,
    }
}

impl PartialOrd for Timestamp {
    /// Orders two timestamps as their counts are ordered.
    fn partial_cmp(&self, other: &Self) -> (order: Option<Ordering>) {
        if self.microseconds_since_epoch < other.microseconds_since_epoch {
            Some(Ordering::Less)
        } else if self.microseconds_since_epoch > other.microseconds_since_epoch {
            Some(Ordering::Greater)
        } else {
            Some(Ordering::Equal)
        }
    }
}

impl vstd::std_specs::cmp::PartialOrdSpecImpl for Timestamp {
    open spec fn obeys_partial_cmp_spec() -> bool {
        true
    }

    open spec fn partial_cmp_spec(&self, other: &Self) -> Option<Ordering> {
        if self@ < other@ {
            Some(Ordering::Less)
        } else if self@ > other@ {
            Some(Ordering::Greater)
        } else {
            Some(Ordering::Equal)
        }
    }
}

impl Timestamp {
    /// The timestamp that was never set: its count is zero.
    pub fn new() -> (unset: Self)
        ensures
            unset@ == 0,
    {
        Timestamp { microseconds_since_epoch: 0 }
    }

    /// The timestamp of `microseconds` microseconds since the epoch, taken
    /// as it is.
    pub fn from_microseconds(microseconds: i64) -> (stamp: Self)
        ensures
            stamp@ == microseconds,
    {
        Timestamp { microseconds_since_epoch: microseconds }
    }

    /// The count of microseconds since the epoch.
    pub fn microseconds_since_epoch(&self) -> (micros: i64)
        ensures
            micros == self@,
    {
        self.microseconds_since_epoch
    }

    /// The whole seconds since the epoch, rounded toward zero: what is left
    /// when the text of a timestamp drops the part below one second.
    pub fn whole_seconds(&self) -> (secs: i64)
        ensures
            secs == whole_seconds_of(self@),
    {
        self.microseconds_since_epoch / 1_000_000
    }

    /// The timestamp that lies `secs` seconds and `subsec_micros`
    /// microseconds after the epoch, or `OutOfRange` where that count does
    /// not fit in 64 bits.
    pub fn from_epoch_parts(secs: u64, subsec_micros: u32) -> (stamp: Result<Self, ClockError>)
        ensures
            is_stamp_of_parts(stamp, secs as int, subsec_micros as int),
    {
        let micros: u128 = secs as u128 * 1_000_000 + subsec_micros as u128;
        if micros <= i64::MAX as u128 {
            Ok(Timestamp { microseconds_since_epoch: micros as i64 })
        } else {
            Err(ClockError::OutOfRange)
        }
    }

    /// The timestamp of what a clock shows: `reading` holds the seconds
    /// since the epoch and the microseconds below one second, and is `None`
    /// for a clock that stands before the epoch, which has no timestamp.
    pub fn from_clock_reading(reading: Option<(u64, u32)>) -> (stamp: Result<Self, ClockError>)
        ensures
            match reading {
                Some((secs, subsec_micros)) => is_stamp_of_parts(
                    stamp,
                    secs as int,
                    subsec_micros as int,
                ),
                None => stamp == Err::<Self, ClockError>(ClockError::BeforeEpoch),
            },
    {
        match reading {
            Some((secs, subsec_micros)) => Timestamp::from_epoch_parts(secs, subsec_micros),
            None => Err(ClockError::BeforeEpoch),
        }
    }

    /// Reads the wall clock. Whatever it shows, a timestamp that comes back
    /// is not negative; the error says why none came back.
    pub fn now() -> (stamp: Result<Self, ClockError>)
        ensures
            stamp matches Ok(read) ==> read@ >= 0,
    {
        let reading = match since_unix_epoch(&SystemTime::now()) {
            Ok(elapsed) => Some((elapsed.as_secs(), elapsed.subsec_micros())),
            Err(_) => None,
        };
        Timestamp::from_clock_reading(reading)
    }

    /// The text of this timestamp where `reading` is what the calendar
    /// shows for it: the text of `reading`, but for the unset timestamp,
    /// which has a text of its own.
    pub open spec fn text_with(self, reading: CalendarTime) -> Seq<char> {
        if self@ == 0 {
            unset_text()
        } else {
            reading.slashed_text()
        }
    }

    /// Writes this timestamp as `YYYY/MM/DD HH:MM:SS`, given the calendar
    /// reading of its instant.
    pub fn render(&self, reading: &CalendarTime) -> (text: String)
        ensures
            text@ == self.text_with(*reading),
    {
        if self.microseconds_since_epoch == 0 {
            "0000/00/00 00:00:00".to_string()
        } else {
            reading.to_slashed_string()
        }
    }

    /// The seconds whose calendar reading the text of this timestamp shows:
    /// its whole seconds where the calendar reaches them, and else those of
    /// the epoch.
    pub fn shown_seconds(&self) -> (secs: i64)
        ensures
            secs == shown_seconds_of(self@),
    {
        let secs = self.whole_seconds();
        if utc_calendar_at(secs).is_some() {
            secs
        } else {
            0
        }
    }

    /// Writes this timestamp as `YYYY/MM/DD HH:MM:SS` in the machine's time
    /// zone. The unset timestamp is written as zeros. Any other is cut to
    /// whole seconds and shown as the local calendar reads that instant, or
    /// as it reads the epoch where the seconds lie outside the calendar.
    pub fn to_string(&self) -> (text: String)
        ensures
            self@ == 0 ==> text@ == unset_text(),
            self@ != 0 ==> exists|reading: CalendarTime|
                is_local_reading_of(shown_seconds_of(self@), reading) && text@
                    == reading.slashed_text(),
    {
        if self.microseconds_since_epoch == 0 {
            return "0000/00/00 00:00:00".to_string();
        }
        let shown = self.shown_seconds();
        let reading = local_calendar_at(shown).unwrap();
        let text = self.render(&reading);
        assert(is_local_reading_of(shown_seconds_of(self@), reading) && text@
            == reading.slashed_text());
        text
    }
}

/// Two timestamps are equal exactly when their counts are equal.
pub proof fn lemma_equal_iff_same_count(a: Timestamp, b: Timestamp)
    ensures
        a == b <==> a@ == b@,
{
}

/// The order of two timestamps is the order of their counts: it is never
/// undecided, and it says `Less`, `Equal` or `Greater` as the counts do.
pub proof fn lemma_order_is_count_order(a: Timestamp, b: Timestamp)
    ensures
        a.partial_cmp_spec(&b) == Some(Ordering::Less) <==> a@ < b@,
        a.partial_cmp_spec(&b) == Some(Ordering::Equal) <==> a@ == b@,
        a.partial_cmp_spec(&b) == Some(Ordering::Greater) <==> a@ > b@,
        a.partial_cmp_spec(&b) is Some,
{
}

/// The order is transitive.
pub proof fn lemma_order_transitive(a: Timestamp, b: Timestamp, c: Timestamp)
    requires
        a.partial_cmp_spec(&b) == Some(Ordering::Less),
        b.partial_cmp_spec(&c) == Some(Ordering::Less),
    ensures
        a.partial_cmp_spec(&c) == Some(Ordering::Less),
{
}

} // verus!
