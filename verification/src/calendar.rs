//! A date and a time of day as six plain numbers, and their text.

use crate::decimal::{
    lemma_decimal_len_small, lemma_zero_padded_len, push_signed_zero_padded, push_zero_padded,
    signed_zero_padded, zero_padded,
};
use vstd::prelude::*;
use vstd::string::*;

verus! {

/// A reading of calendar and clock: what a date-time library shows for one
/// instant in one time zone.
#[derive(Clone, Copy, Debug, PartialEq, Eq, Structural)]
pub struct CalendarTime {
    /// Year of the proleptic Gregorian calendar; zero and below are years
    /// before the common era.
    pub year: i32,
    /// Month of the year, from 1.
    pub month: u32,
    /// Day of the month, from 1.
    pub day: u32,
    /// Hour of the day, from 0.
    pub hour: u32,
    /// Minute of the hour, from 0.
    pub minute: u32,
    /// Second of the minute, from 0.
    pub second: u32,
}

impl CalendarTime {
    /// Whether every field but the year lies in the range that a calendar
    /// and a 24-hour clock give it.
    pub open spec fn in_range(self) -> bool {
        &&& 1 <= self.month <= 12
        &&& 1 <= self.day <= 31
        &&& self.hour <= 23
        &&& self.minute <= 59
        &&& self.second <= 59
    }

    /// The text `YYYY/MM/DD HH:MM:SS`: the year at four characters, each
    /// other field at two, zeros in front. A field too large for its width
    /// keeps all its digits, and a negative year has its sign inside the
    /// four.
    pub open spec fn slashed_text(self) -> Seq<char> {
        signed_zero_padded(self.year as int, 4) + seq!['/'] + zero_padded(self.month as nat, 2)
            + seq!['/'] + zero_padded(self.day as nat, 2) + seq![' '] + zero_padded(
            self.hour as nat,
            2,
        ) + seq![':'] + zero_padded(self.minute as nat, 2) + seq![':'] + zero_padded(
            self.second as nat,
            2,
        )
    }

    /// Writes the reading as `YYYY/MM/DD HH:MM:SS`.
    pub fn to_slashed_string(&self) -> (text: String)
        ensures
            text@ == self.slashed_text(),
    {
        proof {
            reveal_strlit("/");
            reveal_strlit(" ");
            reveal_strlit(":");
            assert("/"@ =~= seq!['/']);
            assert(" "@ =~= seq![' ']);
            assert(":"@ =~= seq![':']);
        }
        let mut text = String::new();
        assert(Seq::<char>::empty() + signed_zero_padded(self.year as int, 4)
            =~= signed_zero_padded(self.year as int, 4));
        push_signed_zero_padded(&mut text, self.year as i64, 4);
        text.append("/");
        push_zero_padded(&mut text, self.month as u64, 2);
        text.append("/");
        push_zero_padded(&mut text, self.day as u64, 2);
        text.append(" ");
        push_zero_padded(&mut text, self.hour as u64, 2);
        text.append(":");
        push_zero_padded(&mut text, self.minute as u64, 2);
        text.append(":");
        push_zero_padded(&mut text, self.second as u64, 2);
        text
    }
}

/// The text of a reading that is in range, in a year of at most four
/// digits, has 19 characters, and its separators stand at fixed places.
pub proof fn lemma_slashed_text_layout(reading: CalendarTime)
    requires
        reading.in_range(),
        0 <= reading.year <= 9999,
    ensures
        reading.slashed_text().len() == 19,
        reading.slashed_text()[4] == '/',
        reading.slashed_text()[7] == '/',
        reading.slashed_text()[10] == ' ',
        reading.slashed_text()[13] == ':',
        reading.slashed_text()[16] == ':',
{
    lemma_decimal_len_small(reading.year as nat);
    lemma_decimal_len_small(reading.month as nat);
    lemma_decimal_len_small(reading.day as nat);
    lemma_decimal_len_small(reading.hour as nat);
    lemma_decimal_len_small(reading.minute as nat);
    lemma_decimal_len_small(reading.second as nat);
    lemma_zero_padded_len(reading.year as nat, 4);
    lemma_zero_padded_len(reading.month as nat, 2);
    lemma_zero_padded_len(reading.day as nat, 2);
    lemma_zero_padded_len(reading.hour as nat, 2);
    lemma_zero_padded_len(reading.minute as nat, 2);
    lemma_zero_padded_len(reading.second as nat, 2);
}

} // verus!
