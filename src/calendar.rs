//! Proleptic Gregorian calendar dates, day numbers and weekdays.

use vstd::arithmetic::div_mod::lemma_mod_multiples_vanish;
use vstd::prelude::*;

use crate::text::digit_char;

verus! {

/// Smallest year that a [`Date`] may hold.
pub const MIN_YEAR: i32 = -262143;

/// Largest year that a [`Date`] may hold.
pub const MAX_YEAR: i32 = 262142;

/// Gregorian leap-year rule: divisible by 4, except centuries not divisible by 400.
pub open spec fn is_leap(y: int) -> bool {
    (y % 4 == 0 && y % 100 != 0) || y % 400 == 0
}

/// Number of days of month `m` (1-based) of year `y`.
pub open spec fn month_length(y: int, m: int) -> int {
    if m == 2 {
        if is_leap(y) { 29 } else { 28 }
    } else if m == 4 || m == 6 || m == 9 || m == 11 {
        30
    } else {
        31
    }
}

/// Whether `year` is a Gregorian leap year.
pub fn is_leap_year(year: i32) -> (r: bool)
    ensures
        r == is_leap(year as int),
{
    // A whole number of 400-year cycles keeps every remainder below and
    // makes the value non-negative.
    let y: u64 = (year as i64 + 2_147_484_000i64) as u64;
    proof {
        let k: int = 5_368_710;
        assert(y as int == 400 * k + year as int);
        lemma_mod_multiples_vanish(100 * k, year as int, 4);
        lemma_mod_multiples_vanish(4 * k, year as int, 100);
        lemma_mod_multiples_vanish(k, year as int, 400);
    }
    (y % 4 == 0 && y % 100 != 0) || y % 400 == 0
}

/// Number of days in `month` (1 to 12) of `year`.
pub fn days_in_month(year: i32, month: u32) -> (r: u32)
    requires
        1 <= month <= 12,
    ensures
        r == month_length(year as int, month as int),
{
    if month == 2 {
        if is_leap_year(year) { 29 } else { 28 }
    } else if month == 4 || month == 6 || month == 9 || month == 11 {
        30
    } else {
        31
    }
}

/// Years are shifted by this many (a whole number of 400-year cycles) before
/// day numbers are computed, so that every intermediate value is non-negative.
pub const YEAR_SHIFT: u64 = 400_000;

/// A calendar date of the proleptic Gregorian calendar.
#[derive(Clone, Copy, Debug, PartialEq, Eq, Structural)]
pub struct Date {
    pub year: i32,
    /// 1 to 12.
    pub month: u32,
    /// 1 to the length of the month.
    pub day: u32,
}

/// Whether the three numbers name an existing date in the supported range.
pub open spec fn valid_ymd(y: int, m: int, d: int) -> bool {
    MIN_YEAR <= y <= MAX_YEAR && 1 <= m <= 12 && 1 <= d <= month_length(y, m)
}

/// Chronological order of dates: by year, then month, then day.
pub open spec fn date_lt(a: Date, b: Date) -> bool {
    a.year < b.year || (a.year == b.year && (a.month < b.month || (a.month == b.month
        && a.day < b.day)))
}

pub open spec fn date_le(a: Date, b: Date) -> bool {
    date_lt(a, b) || a == b
}

/// Consecutive numbering of days: the day after `d` has the number of `d` plus one.
pub open spec fn day_number(d: Date) -> int {
    let m = d.month as int;
    let yy = (if m <= 2 { d.year - 1 } else { d.year as int }) + YEAR_SHIFT;
    let mp = if m > 2 { m - 3 } else { m + 9 };
    365 * yy + yy / 4 - yy / 100 + yy / 400 + (153 * mp + 2) / 5 + d.day - 1
}

/// Day of the week of a day number: 0 is Sunday, 1 Monday, ..., 6 Saturday.
pub open spec fn weekday_of_number(n: int) -> int {
    (n + 3) % 7
}

/// Day of the week of a date, 0 (Sunday) to 6 (Saturday).
pub open spec fn weekday(d: Date) -> int {
    weekday_of_number(day_number(d))
}

impl Date {
    pub open spec fn wf(self) -> bool {
        valid_ymd(self.year as int, self.month as int, self.day as int)
    }

    /// The date with the given year, month and day, if it exists in the supported range.
    pub fn from_ymd(year: i32, month: u32, day: u32) -> (r: Option<Date>)
        ensures
            r is Some <==> valid_ymd(year as int, month as int, day as int),
            r is Some ==> r->0 == (Date { year, month, day }),
    {
        if year < MIN_YEAR || year > MAX_YEAR || month < 1 || month > 12 || day < 1 {
            None
        } else if day > days_in_month(year, month) {
            None
        } else {
            Some(Date { year, month, day })
        }
    }

    /// The day number of this date (see [`day_number`]).
    pub fn day_number(&self) -> (r: u64)
        requires
            self.wf(),
        ensures
            r == day_number(*self),
            r >= 1,
    {
        let yy: u64 = if self.month <= 2 {
            (self.year as i64 - 1 + YEAR_SHIFT as i64) as u64
        } else {
            (self.year as i64 + YEAR_SHIFT as i64) as u64
        };
        let mp: u64 = if self.month > 2 {
            self.month as u64 - 3
        } else {
            self.month as u64 + 9
        };
        365 * yy + yy / 4 - yy / 100 + yy / 400 + (153 * mp + 2) / 5 + self.day as u64 - 1
    }

    /// Day of the week, 0 (Sunday) to 6 (Saturday).
    pub fn weekday(&self) -> (r: u8)
        requires
            self.wf(),
        ensures
            r == weekday(*self),
    {
        weekday_from_number(self.day_number())
    }
}

/// Day of the week of a day number, 0 (Sunday) to 6 (Saturday).
pub fn weekday_from_number(n: u64) -> (r: u8)
    requires
        n < u64::MAX - 3,
    ensures
        r == weekday_of_number(n as int),
        r < 7,
{
    ((n + 3) % 7) as u8
}

/// The day after `d`.
pub open spec fn next_day(d: Date) -> Date {
    if (d.day as int) < month_length(d.year as int, d.month as int) {
        Date { day: (d.day + 1) as u32, ..d }
    } else if d.month < 12 {
        Date { year: d.year, month: (d.month + 1) as u32, day: 1 }
    } else {
        Date { year: (d.year + 1) as i32, month: 1, day: 1 }
    }
}

proof fn lemma_leap_step(y: int)
    requires
        y >= 1,
    ensures
        (y / 4 - y / 100 + y / 400) - ((y - 1) / 4 - (y - 1) / 100 + (y - 1) / 400) == if is_leap(
            y,
        ) {
            1int
        } else {
            0int
        },
{
    assert((y / 4 - (y - 1) / 4) == if y % 4 == 0 { 1int } else { 0int }) by (nonlinear_arith)
        requires y >= 1;
    assert((y / 100 - (y - 1) / 100) == if y % 100 == 0 { 1int } else { 0int }) by (nonlinear_arith)
        requires y >= 1;
    assert((y / 400 - (y - 1) / 400) == if y % 400 == 0 { 1int } else { 0int }) by (nonlinear_arith)
        requires y >= 1;
    assert(y % 100 == 0 ==> y % 4 == 0) by (nonlinear_arith)
        requires y >= 1;
    assert(y % 400 == 0 ==> y % 100 == 0) by (nonlinear_arith)
        requires y >= 1;
}

/// Day numbers count days one by one: the day after `d` has the next number.
pub proof fn lemma_next_day_number(d: Date)
    requires
        d.wf(),
        d.year < MAX_YEAR,
    ensures
        next_day(d).wf(),
        day_number(next_day(d)) == day_number(d) + 1,
{
    let y = d.year as int + YEAR_SHIFT;
    if d.month == 2 && (d.day as int) == month_length(d.year as int, 2) {
        lemma_leap_step(y);
        assert(is_leap(y) == is_leap(d.year as int)) by {
            lemma_mod_multiples_vanish(100000, d.year as int, 4);
            lemma_mod_multiples_vanish(4000, d.year as int, 100);
            lemma_mod_multiples_vanish(1000, d.year as int, 400);
        }
    }
}

/// Two decimal digits of `n`, 0 to 99, zero-padded.
pub open spec fn two_digits(n: int) -> Seq<char> {
    seq![digit_char(n / 10), digit_char(n % 10)]
}

/// "YYYY-MM-DD" text of a date of the years 0 to 9999.
pub open spec fn iso_date_text(d: Date) -> Seq<char> {
    let y = d.year as int;
    two_digits(y / 100) + two_digits(y % 100) + seq!['-'] + two_digits(d.month as int) + seq![
        '-',
    ] + two_digits(d.day as int)
}

/// Relies on chrono's `NaiveDate::from_ymd_opt`, which gives the date for every
/// valid year, month and day of years -262143 to 262142, and on its `%Y-%m-%d`
/// format, which for years 0 to 9999 writes four year digits, then two month
/// and two day digits, zero-padded and joined by '-'.
#[verifier::external_body]
pub(crate) fn date_key(d: &Date) -> (r: String)
    requires
        d.wf(),
    ensures
        0 <= d.year <= 9999 ==> r@ == iso_date_text(*d),
{
    let date = chrono::NaiveDate::from_ymd_opt(d.year, d.month, d.day).unwrap_or_default();
    date.format("%Y-%m-%d").to_string()
}

} // verus!
