//! The wall-clock moment a tasting is recorded at: a calendar date and a time
//! of day, as a clock in the local time zone shows them.

use crate::text::{lemma_decimal_len, push_zero_padded, zero_padded};
use chrono::{Datelike, Timelike};
use vstd::prelude::*;
use vstd::string::*;

verus! {

/// Leap years of the proleptic Gregorian calendar; year 0 is 1 BCE.
pub open spec fn is_leap_year(year: int) -> bool {
    year % 4 == 0 && (year % 100 != 0 || year % 400 == 0)
}

/// The number of days of `month` (1 to 12) in `year`.
pub open spec fn days_in_month(year: int, month: int) -> int {
    if month == 2 {
        if is_leap_year(year) {
            29
        } else {
            28
        }
    } else if month == 4 || month == 6 || month == 9 || month == 11 {
        30
    } else {
        31
    }
}

/// The year as the journal writes it: four digits from 0 to 9999, and
/// outside that range a sign followed by at least four digits.
pub open spec fn year_text(year: int) -> Seq<char> {
    if 0 <= year <= 9999 {
        zero_padded(year as nat, 4)
    } else if year > 9999 {
        seq!['+'] + zero_padded(year as nat, 4)
    } else {
        seq!['-'] + zero_padded((-year) as nat, 4)
    }
}

/// What a [`Timestamp`] holds, as mathematical integers.
pub struct TimestampView {
    pub year: int,
    pub month: int,
    pub day: int,
    pub hour: int,
    pub minute: int,
    pub second: int,
}

impl TimestampView {
    /// The fields name a day that exists and a time of day on it.
    pub open spec fn well_formed(self) -> bool {
        &&& i32::MIN <= self.year <= i32::MAX
        &&& 1 <= self.month <= 12
        &&& 1 <= self.day <= days_in_month(self.year, self.month)
        &&& 0 <= self.hour <= 23
        &&& 0 <= self.minute <= 59
        &&& 0 <= self.second <= 59
    }

    /// The moment written as `YYYY-MM-DD HH:MM:SS`.
    pub open spec fn text(self) -> Seq<char> {
        year_text(self.year) + seq!['-'] + zero_padded(self.month as nat, 2) + seq!['-']
            + zero_padded(self.day as nat, 2) + seq![' '] + zero_padded(self.hour as nat, 2)
            + seq![':'] + zero_padded(self.minute as nat, 2) + seq![':'] + zero_padded(
            self.second as nat,
            2,
        )
    }
}

/// The moment with these fields.
pub open spec fn moment(year: int, month: int, day: int, hour: int, minute: int, second: int)
    -> TimestampView {
    TimestampView { year, month, day, hour, minute, second }
}

/// With a year from 0 to 9999 the written moment has exactly 19 characters.
pub proof fn lemma_text_len(t: TimestampView)
    requires
        t.well_formed(),
        0 <= t.year <= 9999,
    ensures
        t.text().len() == 19,
{
    lemma_decimal_len(t.year as nat);
    lemma_decimal_len(t.month as nat);
    lemma_decimal_len(t.day as nat);
    lemma_decimal_len(t.hour as nat);
    lemma_decimal_len(t.minute as nat);
    lemma_decimal_len(t.second as nat);
}

/// A calendar date and time of day. Every value names a day that exists.
#[derive(Clone, Copy, Debug, PartialEq, Eq)]
pub struct Timestamp {
    year: i32,
    month: u32,
    day: u32,
    hour: u32,
    minute: u32,
    second: u32,
}

impl View for Timestamp {
    type V = TimestampView;

    closed spec fn view(&self) -> TimestampView {
        TimestampView {
            year: self.year as int,
            month: self.month as int,
            day: self.day as int,
            hour: self.hour as int,
            minute: self.minute as int,
            second: self.second as int,
        }
    }
}

/// The current local date and time by chrono's `Local::now`, taken apart
/// with `Datelike::{year, month, day}` and `Timelike::{hour, minute, second}`.
///
/// Believed of chrono, not proved: the month is 1 to 12, the day exists in
/// that month of that year of the proleptic Gregorian calendar, the hour is
/// 0 to 23, and minute and second are 0 to 59. Nothing is said of which
/// moment comes back. chrono panics where the system clock stands before
/// 1970.
#[verifier::external_body]
fn local_clock_reading() -> (fields: (i32, u32, u32, u32, u32, u32))
    ensures
        1 <= fields.1 <= 12,
        1 <= fields.2 <= days_in_month(fields.0 as int, fields.1 as int),
        fields.3 <= 23,
        fields.4 <= 59,
        fields.5 <= 59,
{
    let now = chrono::Local::now();
    (now.year(), now.month(), now.day(), now.hour(), now.minute(), now.second())
}

/// Whether `year` is a leap year.
fn leap_year(year: i32) -> (leap: bool)
    ensures
        leap == is_leap_year(year as int),
{
    year % 4 == 0 && (year % 100 != 0 || year % 400 == 0)
}

/// The number of days of `month` in `year`.
fn month_length(year: i32, month: u32) -> (days: u32)
    requires
        1 <= month <= 12,
    ensures
        days == days_in_month(year as int, month as int),
{
    if month == 2 {
        if leap_year(year) {
            29
        } else {
            28
        }
    } else if month == 4 || month == 6 || month == 9 || month == 11 {
        30
    } else {
        31
    }
}

impl Timestamp {
    /// Holds of every `Timestamp` a program can have.
    #[verifier::type_invariant]
    pub open spec fn is_valid(self) -> bool {
        self@.well_formed()
    }

    /// The moment with these fields, if they name a day that exists and a
    /// time of day on it.
    pub fn new(year: i32, month: u32, day: u32, hour: u32, minute: u32, second: u32) -> (made:
        Option<Timestamp>)
        ensures
            made is Some <==> moment(
                year as int,
                month as int,
                day as int,
                hour as int,
                minute as int,
                second as int,
            ).well_formed(),
            made matches Some(t) ==> t@ == moment(
                year as int,
                month as int,
                day as int,
                hour as int,
                minute as int,
                second as int,
            ),
    {
        if month < 1 || month > 12 || hour > 23 || minute > 59 || second > 59 {
            return None;
        }
        if day < 1 || day > month_length(year, month) {
            return None;
        }
        Some(Timestamp { year, month, day, hour, minute, second })
    }

    /// The local date and time at the moment of the call.
    pub fn now() -> (t: Timestamp)
        ensures
            t@.well_formed(),
    {
        let fields = local_clock_reading();
        Timestamp {
            year: fields.0,
            month: fields.1,
            day: fields.2,
            hour: fields.3,
            minute: fields.4,
            second: fields.5,
        }
    }

    /// The year; 0 is 1 BCE.
    pub fn year(&self) -> (year: i32)
        ensures
            year == self@.year,
    {
        self.year
    }

    /// The month, from 1 to 12.
    pub fn month(&self) -> (month: u32)
        ensures
            month == self@.month,
            1 <= month <= 12,
    {
        proof {
            use_type_invariant(self);
        }
        self.month
    }

    /// The day of the month, from 1 to the length of the month.
    pub fn day(&self) -> (day: u32)
        ensures
            day == self@.day,
            1 <= day <= days_in_month(self@.year, self@.month),
    {
        proof {
            use_type_invariant(self);
        }
        self.day
    }

    /// The hour, from 0 to 23.
    pub fn hour(&self) -> (hour: u32)
        ensures
            hour == self@.hour,
            hour <= 23,
    {
        proof {
            use_type_invariant(self);
        }
        self.hour
    }

    /// The minute, from 0 to 59.
    pub fn minute(&self) -> (minute: u32)
        ensures
            minute == self@.minute,
            minute <= 59,
    {
        proof {
            use_type_invariant(self);
        }
        self.minute
    }

    /// The second, from 0 to 59.
    pub fn second(&self) -> (second: u32)
        ensures
            second == self@.second,
            second <= 59,
    {
        proof {
            use_type_invariant(self);
        }
        self.second
    }

    /// Appends the moment, written as `YYYY-MM-DD HH:MM:SS`, to `out`.
    pub(crate) fn push_text(&self, out: &mut String)
        ensures
            final(out)@ == old(out)@ + self@.text(),
    {
        proof {
            reveal_strlit("+");
            reveal_strlit("-");
            reveal_strlit(" ");
            reveal_strlit(":");
        }
        let wide: i64 = self.year as i64;
        if wide > 9999 {
            out.append("+");
        } else if wide < 0 {
            out.append("-");
        }
        let magnitude: u32 = if wide < 0 {
            (0 - wide) as u32
        } else {
            wide as u32
        };
        push_zero_padded(out, magnitude, 4);
        assert(out@ =~= old(out)@ + year_text(self@.year));
        out.append("-");
        push_zero_padded(out, self.month, 2);
        out.append("-");
        push_zero_padded(out, self.day, 2);
        out.append(" ");
        push_zero_padded(out, self.hour, 2);
        out.append(":");
        push_zero_padded(out, self.minute, 2);
        out.append(":");
        push_zero_padded(out, self.second, 2);
        assert(out@ =~= old(out)@ + self@.text());
    }

    /// The moment written as `YYYY-MM-DD HH:MM:SS`.
    pub fn to_text(&self) -> (s: String)
        ensures
            s@ == self@.text(),
    {
        let mut s = String::new();
        self.push_text(&mut s);
        assert(s@ =~= self@.text());
        s
    }
}

} // verus!
