//! The tick calculator: the earnings state of one moment, from the
//! configuration, today's overrides and the wall-clock time.

use vstd::prelude::*;

use crate::calendar::{day_number, weekday_from_number, weekday_of_number};
use crate::clock::{minutes_of_text, time_to_minutes, LocalDateTime};
use crate::money::Money;
use crate::pay_period::{
    contains_weekday, count_work_days, get_pay_period, get_work_days_in_period,
    get_worked_days_since_pay_day, lemma_pay_period_contains, pay_period, period_in_range,
};
use crate::types::{SalaryType, UserSettings};

verus! {

/// Minutes in a day.
pub const DAY_MINUTES: u64 = 1440;

/// Where the worker stands in today's shift.
#[derive(Clone, Copy, Debug, PartialEq, Eq, Structural)]
pub enum WorkStatus {
    BeforeWork,
    Working,
    Completed,
    DayOff,
}

/// The earnings state of one moment. Every amount is exact; `per_second`,
/// `today_earnings` and `accumulated_earnings` share one denominator.
#[derive(Clone, Copy, Debug, PartialEq, Eq, Structural)]
pub struct SalaryTickPayload {
    pub daily_rate: Money,
    pub hourly_rate: Money,
    pub per_second: Money,
    pub accumulated_earnings: Money,
    pub today_earnings: Money,
    pub work_status: WorkStatus,
    pub is_work_day: bool,
    /// Work days of the pay period completed before today.
    pub worked_days: u32,
}

impl SalaryTickPayload {
    /// Every amount has a positive denominator.
    pub open spec fn wf(self) -> bool {
        self.daily_rate.wf() && self.hourly_rate.wf() && self.per_second.wf()
            && self.accumulated_earnings.wf() && self.today_earnings.wf()
    }
}

/// What a monthly salary is the amount divided by: 1 for a monthly amount,
/// 12 for a yearly one.
pub open spec fn months_in(t: SalaryType) -> int {
    match t {
        SalaryType::Monthly => 1,
        SalaryType::Yearly => 12,
    }
}

/// A schedule override for today as texts: start and end.
pub open spec fn override_view(o: Option<(&str, &str)>) -> Option<(Seq<char>, Seq<char>)> {
    match o {
        Some(p) => Some((p.0@, p.1@)),
        None => None,
    }
}

/// Start and end texts of today's shift: the override's, else the configured ones.
pub open spec fn shift_texts(s: UserSettings, today_override: Option<(Seq<char>, Seq<char>)>) -> (
    Seq<char>,
    Seq<char>,
) {
    match today_override {
        Some(p) => p,
        None => (s.work_start_time@, s.work_end_time@),
    }
}

/// End of a shift in minutes after the start day's midnight: an end at or
/// before the start falls on the next day.
pub open spec fn shift_end(start: int, raw_end: int) -> int {
    if raw_end <= start {
        raw_end + DAY_MINUTES
    } else {
        raw_end
    }
}

/// Status and today's earnings, the latter in units of `1 / denom` where the
/// daily rate is `daily` of them.
pub open spec fn status_and_earned(
    is_work_day: bool,
    on_vacation: bool,
    current: int,
    start: int,
    end: int,
    second: int,
    amount: int,
    daily: int,
) -> (WorkStatus, int) {
    if !is_work_day {
        (WorkStatus::DayOff, 0)
    } else if on_vacation {
        (WorkStatus::DayOff, daily)
    } else if current < start {
        (WorkStatus::BeforeWork, 0)
    } else if current >= end {
        (WorkStatus::Completed, daily)
    } else {
        (WorkStatus::Working, amount * ((current - start) * 60 + second))
    }
}

/// The earnings state at `now`, or nothing where no calculation is possible:
/// a shift whose start and end are the same minute, a shift of no positive
/// length, a pay day of 0, or a pay period without work days.
pub open spec fn salary_tick(
    s: UserSettings,
    on_vacation: bool,
    today_override: Option<(Seq<char>, Seq<char>)>,
    now: LocalDateTime,
) -> Option<SalaryTickPayload> {
    let start = minutes_of_text(shift_texts(s, today_override).0) as int;
    let raw_end = minutes_of_text(shift_texts(s, today_override).1) as int;
    let overnight = raw_end <= start;
    let end = shift_end(start, raw_end);
    let shift = end - start;
    let period = pay_period(now.date, s.pay_day as int);
    let work_days = count_work_days(day_number(period.0), day_number(period.1), s.work_days@);
    if raw_end == start || shift <= 0 || s.pay_day == 0 || work_days == 0 {
        None
    } else {
        let amount = s.salary_amount as int;
        let months = months_in(s.salary_type);
        // Denominator of the per-second rate and of both earnings.
        let denom = 60 * months * work_days * shift;
        let daily = amount * 60 * shift;
        let raw_now = now.hour * 60 + now.minute;
        let today = day_number(now.date);
        let effective_day = if overnight && raw_now < raw_end {
            today - 1
        } else {
            today
        };
        let is_work_day = s.work_days@.contains(weekday_of_number(effective_day) as u8)
            || today_override is Some;
        let current = if overnight && raw_now < start {
            raw_now + DAY_MINUTES
        } else {
            raw_now
        };
        let se = status_and_earned(
            is_work_day,
            on_vacation,
            current,
            start,
            end,
            now.second as int,
            amount,
            daily,
        );
        let worked = count_work_days(day_number(period.0), today, s.work_days@);
        Some(
            SalaryTickPayload {
                daily_rate: Money { numer: amount as u128, denom: (months * work_days) as u128 },
                hourly_rate: Money {
                    numer: (60 * amount) as u128,
                    denom: (months * work_days * shift) as u128,
                },
                per_second: Money { numer: amount as u128, denom: denom as u128 },
                accumulated_earnings: Money {
                    numer: (worked * daily + se.1) as u128,
                    denom: denom as u128,
                },
                today_earnings: Money { numer: se.1 as u128, denom: denom as u128 },
                work_status: se.0,
                is_work_day,
                worked_days: worked as u32,
            },
        )
    }
}

fn today_status(
    is_work_day: bool,
    on_vacation: bool,
    current: u64,
    start: u64,
    end: u64,
    second: u32,
    amount: u128,
    daily: u128,
) -> (r: (WorkStatus, u128))
    requires
        current < 2 * DAY_MINUTES,
        second < 60,
        amount < 0x1_0000_0000,
    ensures
        (r.0, r.1 as int) == status_and_earned(
            is_work_day,
            on_vacation,
            current as int,
            start as int,
            end as int,
            second as int,
            amount as int,
            daily as int,
        ),
        r.1 == daily || r.1 < 0x1_0000_0000_0000_0000_0000,
{
    if !is_work_day {
        (WorkStatus::DayOff, 0)
    } else if on_vacation {
        (WorkStatus::DayOff, daily)
    } else if current < start {
        (WorkStatus::BeforeWork, 0)
    } else if current >= end {
        (WorkStatus::Completed, daily)
    } else {
        let worked_seconds: u128 = ((current - start) * 60 + second as u64) as u128;
        assert(amount * worked_seconds < 0x1_0000_0000_0000_0000_0000) by (nonlinear_arith)
            requires
                amount < 0x1_0000_0000,
                worked_seconds < 0x1_0000_0000,
        ;
        (WorkStatus::Working, amount * worked_seconds)
    }
}

/// A shift whose start and end are the same minute has no length and gives no
/// snapshot.
pub proof fn lemma_equal_times_no_snapshot(
    s: UserSettings,
    on_vacation: bool,
    today_override: Option<(Seq<char>, Seq<char>)>,
    now: LocalDateTime,
)
    requires
        minutes_of_text(shift_texts(s, today_override).1) == minutes_of_text(
            shift_texts(s, today_override).0,
        ),
    ensures
        salary_tick(s, on_vacation, today_override, now) is None,
{
}

/// A shift whose end lies a full day or more before its start is not after the
/// start even taken on the next day, and gives no snapshot.
pub proof fn lemma_inverted_shift_no_snapshot(
    s: UserSettings,
    on_vacation: bool,
    today_override: Option<(Seq<char>, Seq<char>)>,
    now: LocalDateTime,
)
    requires
        minutes_of_text(shift_texts(s, today_override).1) + DAY_MINUTES <= minutes_of_text(
            shift_texts(s, today_override).0,
        ),
    ensures
        salary_tick(s, on_vacation, today_override, now) is None,
{
}

/// The earnings state at `now` (see [`salary_tick`]).
pub fn calculate_salary(
    settings: &UserSettings,
    is_on_vacation: bool,
    today_override: Option<(&str, &str)>,
    now: LocalDateTime,
) -> (r: Option<SalaryTickPayload>)
    requires
        now.wf(),
        period_in_range(now.date),
    ensures
        r == salary_tick(*settings, is_on_vacation, override_view(today_override), now),
        r is Some ==> r->0.wf(),
{
    let (start_text, end_text) = match today_override {
        Some((s, e)) => (s, e),
        None => (settings.work_start_time.as_str(), settings.work_end_time.as_str()),
    };
    let start = time_to_minutes(start_text);
    let raw_end = time_to_minutes(end_text);
    let overnight = raw_end <= start;
    let end = if overnight {
        raw_end + DAY_MINUTES
    } else {
        raw_end
    };
    if raw_end == start || end <= start || settings.pay_day == 0 {
        return None;
    }
    let shift: u64 = end - start;
    let (period_start, period_end) = get_pay_period(now.date, settings.pay_day);
    proof {
        lemma_pay_period_contains(now.date, settings.pay_day as int);
    }
    let work_days = get_work_days_in_period(period_start, period_end, &settings.work_days);
    if work_days == 0 {
        return None;
    }
    let amount: u128 = settings.salary_amount as u128;
    let months: u128 = match settings.salary_type {
        SalaryType::Monthly => 1,
        SalaryType::Yearly => 12,
    };
    let shift_w: u128 = shift as u128;
    let work_days_w: u128 = work_days as u128;
    assert(shift < 0x80_0000_0000);
    assert(amount * 60 * shift_w < 0x2000_0000_0000_0000_0000) by (nonlinear_arith)
        requires
            amount < 0x1_0000_0000,
            shift_w < 0x80_0000_0000,
    ;
    assert(60 * months * work_days_w < 0x1000_0000_0000) by (nonlinear_arith)
        requires
            months <= 12,
            work_days_w < 0x1_0000_0000,
    ;
    assert(60 * months * work_days_w * shift_w < 0x4_0000_0000_0000_0000_0000) by (
    nonlinear_arith)
        requires
            months <= 12,
            work_days_w < 0x1_0000_0000,
            shift_w < 0x80_0000_0000,
    ;
    assert(months * work_days_w <= 60 * months * work_days_w * shift_w) by (nonlinear_arith)
        requires
            months <= 12,
            shift_w >= 1,
    ;
    assert(months * work_days_w * shift_w <= 60 * months * work_days_w * shift_w) by (
    nonlinear_arith)
        requires
            months <= 12,
    ;
    assert(60 * months * work_days_w * shift_w > 0) by (nonlinear_arith)
        requires
            months >= 1,
            work_days_w >= 1,
            shift_w >= 1,
    ;
    assert(months * work_days_w > 0) by (nonlinear_arith)
        requires
            months >= 1,
            work_days_w >= 1,
    ;
    assert(months * work_days_w * shift_w > 0) by (nonlinear_arith)
        requires
            months >= 1,
            work_days_w >= 1,
            shift_w >= 1,
    ;
    let daily: u128 = amount * 60 * shift_w;
    let denom: u128 = 60 * months * work_days_w * shift_w;
    let raw_now: u64 = (now.hour * 60 + now.minute) as u64;
    let today = now.date.day_number();
    let effective_day = if overnight && raw_now < raw_end {
        today - 1
    } else {
        today
    };
    let is_work_day = contains_weekday(&settings.work_days, weekday_from_number(effective_day))
        || today_override.is_some();
    let current: u64 = if overnight && raw_now < start {
        raw_now + DAY_MINUTES
    } else {
        raw_now
    };
    let (work_status, earned) = today_status(
        is_work_day,
        is_on_vacation,
        current,
        start,
        end,
        now.second,
        amount,
        daily,
    );
    let worked_days = get_worked_days_since_pay_day(period_start, now.date, &settings.work_days);
    assert(worked_days as u128 * daily < 0x4000_0000_0000_0000_0000_0000_0000) by (
    nonlinear_arith)
        requires
            worked_days < 0x1_0000_0000,
            daily < 0x2000_0000_0000_0000_0000,
    ;
    Some(
        SalaryTickPayload {
            daily_rate: Money { numer: amount, denom: months * work_days_w },
            hourly_rate: Money { numer: 60 * amount, denom: months * work_days_w * shift_w },
            per_second: Money { numer: amount, denom },
            accumulated_earnings: Money { numer: worked_days as u128 * daily + earned, denom },
            today_earnings: Money { numer: earned, denom },
            work_status,
            is_work_day,
            worked_days,
        },
    )
}

} // verus!
