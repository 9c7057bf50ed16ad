//! Pay periods: the half-open date interval between two consecutive
//! (month-clamped) pay days, and the work days that fall in it.

use vstd::prelude::*;

use crate::calendar::{
    date_le, date_lt, day_number, days_in_month, month_length, weekday_from_number,
    weekday_of_number, Date, MAX_YEAR, MIN_YEAR,
};

verus! {

/// The pay day as it falls in month `m` of year `y`: `pay_day`, or the last day
/// of a shorter month.
pub open spec fn clamped_pay_day(y: int, m: int, pay_day: int) -> int {
    if pay_day <= month_length(y, m) {
        pay_day
    } else {
        month_length(y, m)
    }
}

/// The pay day of month `m` of year `y` as a date.
pub open spec fn pay_date(y: int, m: int, pay_day: int) -> Date {
    Date { year: y as i32, month: m as u32, day: clamped_pay_day(y, m, pay_day) as u32 }
}

/// The pay period `(start, end)` that holds `today`: from this month's pay day to the
/// next one when `today` is on or after this month's pay day, else from last month's.
pub open spec fn pay_period(today: Date, pay_day: int) -> (Date, Date) {
    let y = today.year as int;
    let m = today.month as int;
    if today.day >= clamped_pay_day(y, m, pay_day) {
        let ny = if m == 12 { y + 1 } else { y };
        let nm = if m == 12 { 1 } else { m + 1 };
        (pay_date(y, m, pay_day), pay_date(ny, nm, pay_day))
    } else {
        let py = if m == 1 { y - 1 } else { y };
        let pm = if m == 1 { 12 } else { m - 1 };
        (pay_date(py, pm, pay_day), pay_date(y, m, pay_day))
    }
}

/// Whether the pay period of `today` lies within the supported range of years.
pub open spec fn period_in_range(today: Date) -> bool {
    MIN_YEAR < today.year < MAX_YEAR
}

fn clamp_pay_day(year: i32, month: u32, pay_day: u8) -> (r: u32)
    requires
        1 <= month <= 12,
    ensures
        r == clamped_pay_day(year as int, month as int, pay_day as int),
{
    let dim = days_in_month(year, month);
    if (pay_day as u32) <= dim {
        pay_day as u32
    } else {
        dim
    }
}

/// The pay period `[start, end)` that holds `today` for the given pay day of month.
pub fn get_pay_period(today: Date, pay_day: u8) -> (r: (Date, Date))
    requires
        today.wf(),
    ensures
        r == pay_period(today, pay_day as int),
{
    let year = today.year;
    let month = today.month;
    let this_day = clamp_pay_day(year, month, pay_day);
    if today.day >= this_day {
        let (ny, nm) = if month == 12 {
            (year + 1, 1u32)
        } else {
            (year, month + 1)
        };
        let start = Date { year, month, day: this_day };
        let end = Date { year: ny, month: nm, day: clamp_pay_day(ny, nm, pay_day) };
        (start, end)
    } else {
        let (py, pm) = if month == 1 {
            (year - 1, 12u32)
        } else {
            (year, month - 1)
        };
        let start = Date { year: py, month: pm, day: clamp_pay_day(py, pm, pay_day) };
        let end = Date { year, month, day: this_day };
        (start, end)
    }
}

/// Every date lies in its own pay period: `start <= today < end`. The bounds
/// are valid dates unless the period reaches past the supported years.
pub proof fn lemma_pay_period_contains(today: Date, pay_day: int)
    requires
        today.wf(),
        1 <= pay_day,
    ensures
        period_in_range(today) ==> pay_period(today, pay_day).0.wf(),
        period_in_range(today) ==> pay_period(today, pay_day).1.wf(),
        date_le(pay_period(today, pay_day).0, today),
        date_lt(today, pay_period(today, pay_day).1),
{
}

/// Every date of a pay period resolves to that same period.
pub proof fn lemma_pay_period_stable(today: Date, other: Date, pay_day: int)
    requires
        today.wf(),
        1 <= pay_day,
        other.wf(),
        date_le(pay_period(today, pay_day).0, other),
        date_lt(other, pay_period(today, pay_day).1),
    ensures
        pay_period(other, pay_day) == pay_period(today, pay_day),
{
}

/// How many days with day numbers in `[lo, hi)` fall on a weekday listed in `work_days`.
pub open spec fn count_work_days(lo: int, hi: int, work_days: Seq<u8>) -> nat
    decreases hi - lo,
{
    if hi <= lo {
        0
    } else {
        count_work_days(lo, hi - 1, work_days) + if work_days.contains(
            weekday_of_number(hi - 1) as u8,
        ) {
            1nat
        } else {
            0nat
        }
    }
}

/// Whether `dow` is listed in `work_days`.
pub fn contains_weekday(work_days: &[u8], dow: u8) -> (r: bool)
    ensures
        r == work_days@.contains(dow),
{
    let mut i: usize = 0;
    while i < work_days.len()
        invariant
            i <= work_days@.len(),
            forall|j: int| 0 <= j < i ==> work_days@[j] != dow,
        decreases work_days@.len() - i,
    {
        if work_days[i] == dow {
            return true;
        }
        i += 1;
    }
    false
}

fn count_work_days_between(lo: u64, hi: u64, work_days: &[u8]) -> (r: u32)
    requires
        hi < 1_000_000_000,
    ensures
        r == count_work_days(lo as int, hi as int, work_days@),
{
    let mut count: u32 = 0;
    let mut current: u64 = lo;
    if hi <= lo {
        return 0;
    }
    while current < hi
        invariant
            lo <= current <= hi < 1_000_000_000,
            count == count_work_days(lo as int, current as int, work_days@),
            count <= current - lo,
        decreases hi - current,
    {
        if contains_weekday(work_days, weekday_from_number(current)) {
            count += 1;
        }
        current += 1;
    }
    count
}

/// Number of work days in `[start, end)`: the days whose weekday (0 = Sunday)
/// is listed in `work_days`.
pub fn get_work_days_in_period(start: Date, end: Date, work_days: &[u8]) -> (r: u32)
    requires
        start.wf(),
        end.wf(),
    ensures
        r == count_work_days(day_number(start), day_number(end), work_days@),
{
    count_work_days_between(start.day_number(), end.day_number(), work_days)
}

/// Number of work days in `[pay_day_start, today)`: the days already completed
/// in the period, today excluded.
pub fn get_worked_days_since_pay_day(pay_day_start: Date, today: Date, work_days: &[u8]) -> (r:
    u32)
    requires
        pay_day_start.wf(),
        today.wf(),
    ensures
        r == count_work_days(day_number(pay_day_start), day_number(today), work_days@),
{
    count_work_days_between(pay_day_start.day_number(), today.day_number(), work_days)
}

} // verus!
