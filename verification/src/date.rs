//! Calendar dates, their `YYYY-MM-DD` text form, and the current day.

use chrono::Datelike;
use vstd::prelude::*;

verus! {

/// A valid proleptic Gregorian calendar date with year 0 through 9999.
#[derive(Clone, Copy, Debug, PartialEq, Eq, Structural)]
pub struct Date {
    year: u16,
    month: u8,
    day: u8,
}

/// Whether `y` is a leap year of the Gregorian calendar.
pub open spec fn spec_is_leap_year(y: int) -> bool {
    y % 4 == 0 && (y % 100 != 0 || y % 400 == 0)
}

/// The number of days of month `m` in year `y`.
pub open spec fn spec_days_in_month(y: int, m: int) -> int {
    if m == 2 {
        if spec_is_leap_year(y) {
            29
        } else {
            28
        }
    } else if m == 4 || m == 6 || m == 9 || m == 11 {
        30
    } else {
        31
    }
}

/// Whether `y` is a leap year.
pub fn is_leap_year(y: u16) -> (r: bool)
    ensures
        r == spec_is_leap_year(y as int),
{
    y % 4 == 0 && (y % 100 != 0 || y % 400 == 0)
}

/// The number of days of month `m` in year `y`.
pub fn days_in_month(y: u16, m: u8) -> (r: u8)
    requires
        1 <= m <= 12,
    ensures
        r as int == spec_days_in_month(y as int, m as int),
{
    if m == 2 {
        if is_leap_year(y) {
            29
        } else {
            28
        }
    } else if m == 4 || m == 6 || m == 9 || m == 11 {
        30
    } else {
        31
    }
}

impl Date {
    /// Whether year `y`, month `m`, day `d` name a calendar day in the
    /// supported range.
    pub open spec fn spec_valid(y: int, m: int, d: int) -> bool {
        0 <= y <= 9999 && 1 <= m <= 12 && 1 <= d <= spec_days_in_month(y, m)
    }

    /// A well-formed date names a calendar day in the supported range.
    pub closed spec fn wf(self) -> bool {
        Self::spec_valid(self.year as int, self.month as int, self.day as int)
    }

    /// The year of the date.
    pub closed spec fn spec_year(self) -> int {
        self.year as int
    }

    /// The month of the date.
    pub closed spec fn spec_month(self) -> int {
        self.month as int
    }

    /// The day of month of the date.
    pub closed spec fn spec_day(self) -> int {
        self.day as int
    }

    /// Builds the date of year `year`, month `month`, day `day`, or `None`
    /// where those do not name a calendar day in the supported range.
    pub fn new(year: u16, month: u8, day: u8) -> (r: Option<Date>)
        ensures
            r is Some <==> Self::spec_valid(year as int, month as int, day as int),
            r matches Some(d) ==> d.wf() && d.spec_year() == year as int && d.spec_month()
                == month as int && d.spec_day() == day as int,
    {
        if year <= 9999 && 1 <= month && month <= 12 && 1 <= day && day <= days_in_month(
            year,
            month,
        ) {
            Some(Date { year, month, day })
        } else {
            None
        }
    }
}

/// The byte of the decimal digit `x`.
pub closed spec fn spec_digit_byte(x: int) -> u8 {
    (48 + x) as u8
}

/// The value of the decimal digit byte `b`.
pub closed spec fn spec_digit_val(b: u8) -> int {
    b - 48
}

/// Whether `b` is the byte of a decimal digit.
pub closed spec fn spec_is_digit(b: u8) -> bool {
    48 <= b <= 57
}

impl Date {
    /// The ten-byte `YYYY-MM-DD` form of the date.
    pub closed spec fn spec_to_iso(self) -> Seq<u8> {
        seq![
            spec_digit_byte(self.year as int / 1000),
            spec_digit_byte((self.year as int / 100) % 10),
            spec_digit_byte((self.year as int / 10) % 10),
            spec_digit_byte(self.year as int % 10),
            45u8,
            spec_digit_byte(self.month as int / 10),
            spec_digit_byte(self.month as int % 10),
            45u8,
            spec_digit_byte(self.day as int / 10),
            spec_digit_byte(self.day as int % 10),
        ]
    }

    /// The date named by a ten-byte `YYYY-MM-DD` text, or `None` where the
    /// text has another shape or names no calendar day in the supported
    /// range.
    pub closed spec fn spec_parse_iso(s: Seq<u8>) -> Option<Date> {
        if s.len() == 10 && s[4] == 45u8 && s[7] == 45u8 && spec_is_digit(s[0]) && spec_is_digit(
            s[1],
        ) && spec_is_digit(s[2]) && spec_is_digit(s[3]) && spec_is_digit(s[5]) && spec_is_digit(
            s[6],
        ) && spec_is_digit(s[8]) && spec_is_digit(s[9]) {
            let y = spec_digit_val(s[0]) * 1000 + spec_digit_val(s[1]) * 100 + spec_digit_val(s[2])
                * 10 + spec_digit_val(s[3]);
            let m = spec_digit_val(s[5]) * 10 + spec_digit_val(s[6]);
            let d = spec_digit_val(s[8]) * 10 + spec_digit_val(s[9]);
            if Self::spec_valid(y, m, d) {
                Some(Date { year: y as u16, month: m as u8, day: d as u8 })
            } else {
                None
            }
        } else {
            None
        }
    }

    /// Renders the date as its ten-byte `YYYY-MM-DD` text.
    pub fn to_iso(&self) -> (r: Vec<u8>)
        requires
            self.wf(),
        ensures
            r@ == self.spec_to_iso(),
    {
        let mut r: Vec<u8> = Vec::new();
        r.push(48 + (self.year / 1000) as u8);
        r.push(48 + ((self.year / 100) % 10) as u8);
        r.push(48 + ((self.year / 10) % 10) as u8);
        r.push(48 + (self.year % 10) as u8);
        r.push(45);
        r.push(48 + self.month / 10);
        r.push(48 + self.month % 10);
        r.push(45);
        r.push(48 + self.day / 10);
        r.push(48 + self.day % 10);
        proof {
            assert(r@ =~= self.spec_to_iso());
        }
        r
    }

    /// Reads a date back from its `YYYY-MM-DD` text.
    pub fn parse_iso(s: &Vec<u8>) -> (r: Option<Date>)
        ensures
            r == Self::spec_parse_iso(s@),
    {
        if s.len() != 10 {
            return None;
        }
        if !(s[4] == 45 && s[7] == 45) {
            return None;
        }
        if !(is_digit(s[0]) && is_digit(s[1]) && is_digit(s[2]) && is_digit(s[3]) && is_digit(s[5])
            && is_digit(s[6]) && is_digit(s[8]) && is_digit(s[9])) {
            return None;
        }
        let y: u16 = (s[0] - 48) as u16 * 1000 + (s[1] - 48) as u16 * 100 + (s[2] - 48) as u16 * 10
            + (s[3] - 48) as u16;
        let m: u8 = (s[5] - 48) * 10 + (s[6] - 48);
        let d: u8 = (s[8] - 48) * 10 + (s[9] - 48);
        Self::new(y, m, d)
    }
}

/// Whether `b` is the byte of a decimal digit.
fn is_digit(b: u8) -> (r: bool)
    ensures
        r == spec_is_digit(b),
{
    48 <= b && b <= 57
}

/// Rendering a date and parsing the text back restores the date exactly.
pub proof fn lemma_date_round_trip(d: Date)
    requires
        d.wf(),
    ensures
        Date::spec_parse_iso(d.spec_to_iso()) == Some(d),
{
    let y = d.year as int;
    assert((y / 1000) * 1000 + ((y / 100) % 10) * 100 + ((y / 10) % 10) * 10 + y % 10 == y)
        by (nonlinear_arith)
        requires
            0 <= y <= 9999,
    ;
}

/// Relies on chrono: `Local::now().date_naive()` is the current calendar date
/// in the local time zone, and `Datelike::month` and `Datelike::day` return
/// the month number in 1..=12 and the day of month in 1..=31.
#[verifier::external_body]
fn today_ymd() -> (r: (i64, u64, u64))
    ensures
        1 <= r.1 <= 12,
        1 <= r.2 <= 31,
{
    let d = chrono::Local::now().date_naive();
    (d.year() as i64, d.month() as u64, d.day() as u64)
}

/// The current calendar date in the local time zone; a fixed fallback day
/// stands in where the clock reports a year outside the supported range.
pub fn today() -> (d: Date)
    ensures
        d.wf(),
{
    let (y, m, dd) = today_ymd();
    if 0 <= y && y <= 9999 {
        if let Some(d) = Date::new(y as u16, m as u8, dd as u8) {
            return d;
        }
    }
    let fallback = Date::new(2000, 1, 1);
    fallback.unwrap()
}

} // verus!
