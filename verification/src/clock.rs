//! The wall clock in UTC and the timestamps of the persistent records.

use crate::risk::UtcDate;
use crate::text::{decimal_digits, push_decimal, push_two_digits, two_digits};
use chrono::{Datelike, Timelike, Utc};
use vstd::prelude::*;

verus! {

/// A date and time of day in UTC, to the second.
#[derive(Debug, Clone, Copy, PartialEq, Eq, Structural)]
pub struct UtcStamp {
    pub year: i32,
    pub month: u32,
    pub day: u32,
    pub hour: u32,
    pub minute: u32,
    pub second: u32,
}

/// A year of the common era up to 9999 as four digits; a later year with a
/// plus sign; a year before the era with a minus sign.
pub open spec fn year_text(year: int) -> Seq<char> {
    if year < 0 {
        seq!['-'] + four_digits((-year) as nat)
    } else if year > 9999 {
        seq!['+'] + decimal_digits(year as nat)
    } else {
        four_digits(year as nat)
    }
}

/// A number as at least four digits.
pub open spec fn four_digits(n: nat) -> Seq<char> {
    if n < 100 {
        seq!['0', '0'] + two_digits(n)
    } else if n < 1000 {
        seq!['0'] + decimal_digits(n)
    } else {
        decimal_digits(n)
    }
}

impl UtcStamp {
    /// A calendar date with a time of day: an hour of 0 to 23, and a minute
    /// and a second of 0 to 59.
    pub open spec fn wf(self) -> bool {
        &&& (UtcDate { year: self.year, month: self.month, day: self.day }).wf()
        &&& self.hour <= 23
        &&& self.minute <= 59
        &&& self.second <= 59
    }

    /// The timestamp `YYYY-MM-DDTHH:MM:SSZ`.
    pub open spec fn iso_text(self) -> Seq<char> {
        year_text(self.year as int) + seq!['-'] + two_digits(self.month as nat) + seq!['-']
            + two_digits(self.day as nat) + seq!['T'] + two_digits(self.hour as nat) + seq![':']
            + two_digits(self.minute as nat) + seq![':'] + two_digits(self.second as nat)
            + seq!['Z']
    }

    /// The calendar date of the stamp.
    pub fn date(&self) -> (date: UtcDate)
        ensures
            date == (UtcDate { year: self.year, month: self.month, day: self.day }),
    {
        UtcDate { year: self.year, month: self.month, day: self.day }
    }

    /// The timestamp in ISO 8601 form, `YYYY-MM-DDTHH:MM:SSZ`.
    pub fn iso8601(&self) -> (text: String)
        ensures
            text@ == self.iso_text(),
    {
        proof {
            reveal_strlit("-");
            reveal_strlit("+");
            reveal_strlit("0");
            reveal_strlit("00");
            reveal_strlit("T");
            reveal_strlit(":");
            reveal_strlit("Z");
        }
        let mut text = String::new();
        let magnitude: u64 = if self.year < 0 {
            text.append("-");
            (-(self.year as i64)) as u64
        } else {
            if self.year > 9999 {
                text.append("+");
            }
            self.year as u64
        };
        if magnitude < 100 {
            text.append("00");
            push_two_digits(&mut text, magnitude);
        } else if magnitude < 1000 {
            text.append("0");
            push_decimal(&mut text, magnitude);
        } else {
            push_decimal(&mut text, magnitude);
        }
        assert(text@ =~= year_text(self.year as int));
        text.append("-");
        push_two_digits(&mut text, self.month as u64);
        text.append("-");
        push_two_digits(&mut text, self.day as u64);
        text.append("T");
        push_two_digits(&mut text, self.hour as u64);
        text.append(":");
        push_two_digits(&mut text, self.minute as u64);
        text.append(":");
        push_two_digits(&mut text, self.second as u64);
        text.append("Z");
        text
    }

    /// The current date and time in UTC. Which time that is the clock
    /// decides; every reading is a calendar date with a time of day, and
    /// none lies before 1970.
    pub fn now() -> (stamp: UtcStamp)
        ensures
            stamp.wf(),
            stamp.year >= 1970,
    {
        utc_now()
    }
}

/// Reads the current date and time in UTC with `Utc::now` of `chrono`, and
/// takes the reading apart with `Datelike` and `Timelike`. Trusted: of the
/// reading only the ranges that `chrono` documents for these fields are
/// claimed, a month of 1 to 12, a day of 1 to 31, an hour of 0 to 23, a
/// minute and a second of 0 to 59 (a leap second is never shown as 60), and
/// a year from 1970 on, since `Utc::now` counts the time from 1970. It
/// panics only where the system clock reads a time before 1970 or beyond
/// the years that `chrono` holds.
#[verifier::external_body]
fn utc_now() -> (stamp: UtcStamp)
    ensures
        stamp.wf(),
        stamp.year >= 1970,
{
    let now = Utc::now();
    UtcStamp {
        year: now.year(),
        month: now.month(),
        day: now.day(),
        hour: now.hour(),
        minute: now.minute(),
        second: now.second(),
    }
}

} // verus!
