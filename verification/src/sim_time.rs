//! The simulator's clock as it is carried in a client query: a date and a
//! time of day, written as fourteen digits.

use vstd::prelude::*;
use chrono::{Datelike, NaiveDate, NaiveDateTime, Timelike};

verus! {

/// A date and a time of day in UTC.
#[derive(Debug, Clone, Copy, PartialEq, Eq, Structural)]
pub struct SimTime {
    pub year: i32,
    pub month: u8,
    pub day: u8,
    pub hour: u8,
    pub minute: u8,
    pub second: u8,
}

/// The date and time that `chrono` reads from a text in the form
/// `%Y%m%d%H%M%S`: year, month, day, hour, minute, second, or `None` where
/// it refuses the text.
pub uninterp spec fn sim_time_read(text: Seq<char>) -> Option<(int, int, int, int, int, int)>;

/// The text that `chrono` writes in the form `%Y%m%d%H%M%S` for a date and
/// time of the given year, month, day, hour, minute and second, or `None`
/// where there is no such date or time.
pub uninterp spec fn sim_time_written(
    year: int,
    month: int,
    day: int,
    hour: int,
    minute: int,
    second: int,
) -> Option<Seq<char>>;

impl SimTime {
    /// Year, month, day, hour, minute and second, in this order.
    pub open spec fn parts(&self) -> (int, int, int, int, int, int) {
        (
            self.year as int,
            self.month as int,
            self.day as int,
            self.hour as int,
            self.minute as int,
            self.second as int,
        )
    }

    /// Calls `chrono::NaiveDateTime::parse_from_str` with the form
    /// `%Y%m%d%H%M%S` and takes the six parts out of what it returns. The
    /// contract only gives that result its name.
    #[verifier::external_body]
    pub(crate) fn read(text: &str) -> (r: Option<SimTime>)
        ensures
            match r {
                Some(t) => sim_time_read(text@) == Some(t.parts()),
                None => sim_time_read(text@) is None,
            },
    {
        match NaiveDateTime::parse_from_str(text, "%Y%m%d%H%M%S") {
            Ok(t) => Some(
                SimTime {
                    year: t.year(),
                    month: t.month() as u8,
                    day: t.day() as u8,
                    hour: t.hour() as u8,
                    minute: t.minute() as u8,
                    second: t.second() as u8,
                },
            ),
            Err(_) => None,
        }
    }

    /// Makes the date with `chrono::NaiveDate::from_ymd_opt`, the time with
    /// `and_hms_opt`, and writes both with `format` in the form
    /// `%Y%m%d%H%M%S`. The contract only gives that result its name.
    #[verifier::external_body]
    pub(crate) fn written(&self) -> (r: Option<String>)
        ensures
            match r {
                Some(text) => sim_time_written(
                    self.year as int,
                    self.month as int,
                    self.day as int,
                    self.hour as int,
                    self.minute as int,
                    self.second as int,
                ) == Some(text@),
                None => sim_time_written(
                    self.year as int,
                    self.month as int,
                    self.day as int,
                    self.hour as int,
                    self.minute as int,
                    self.second as int,
                ) is None,
            },
    {
        let date = NaiveDate::from_ymd_opt(self.year, self.month as u32, self.day as u32)?;
        let time = date.and_hms_opt(self.hour as u32, self.minute as u32, self.second as u32)?;
        Some(time.format("%Y%m%d%H%M%S").to_string())
    }

    /// The text that is written for the time, or the empty text where its
    /// parts make no date or time.
    pub open spec fn wire(&self) -> Seq<char> {
        match sim_time_written(
            self.year as int,
            self.month as int,
            self.day as int,
            self.hour as int,
            self.minute as int,
            self.second as int,
        ) {
            Some(text) => text,
            None => Seq::empty(),
        }
    }

    /// Reads a time from its fourteen digits.
    pub fn from_str(text: &str) -> (r: Option<SimTime>)
        ensures
            match r {
                Some(t) => sim_time_read(text@) == Some(t.parts()),
                None => sim_time_read(text@) is None,
            },
    {
        SimTime::read(text)
    }

    /// The text that is written for the time.
    pub fn to_string(&self) -> (r: String)
        ensures
            r@ == self.wire(),
    {
        match self.written() {
            Some(text) => text,
            None => String::new(),
        }
    }
}

} // verus!
