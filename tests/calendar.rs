use chrono::{Datelike, NaiveDate};
use salary_ticker::calendar::{days_in_month, is_leap_year, Date};
use salary_ticker::pay_period::{get_pay_period, get_work_days_in_period, get_worked_days_since_pay_day};

fn to_date(d: NaiveDate) -> Date {
    Date::from_ymd(d.year(), d.month(), d.day()).unwrap()
}

fn to_naive(d: Date) -> NaiveDate {
    NaiveDate::from_ymd_opt(d.year, d.month, d.day).unwrap()
}

#[test]
fn days_in_month_matches_the_calendar_1900_to_2100() {
    for year in 1900..=2100 {
        for month in 1..=12u32 {
            let first = NaiveDate::from_ymd_opt(year, month, 1).unwrap();
            let next = if month == 12 {
                NaiveDate::from_ymd_opt(year + 1, 1, 1).unwrap()
            } else {
                NaiveDate::from_ymd_opt(year, month + 1, 1).unwrap()
            };
            let expected = (next - first).num_days() as u32;
            assert_eq!(days_in_month(year, month), expected, "{year}-{month}");
        }
    }
    assert_eq!(days_in_month(2024, 2), 29);
    assert_eq!(days_in_month(2025, 2), 28);
    assert_eq!(days_in_month(1900, 2), 28);
    assert_eq!(days_in_month(2000, 2), 29);
}

#[test]
fn leap_years_follow_the_gregorian_rule() {
    assert!(is_leap_year(2024));
    assert!(!is_leap_year(2025));
    assert!(!is_leap_year(1900));
    assert!(is_leap_year(2000));
    assert!(is_leap_year(-4));
    assert!(!is_leap_year(-100));
    assert!(is_leap_year(-400));
}

#[test]
fn from_ymd_refuses_missing_dates() {
    assert!(Date::from_ymd(2025, 2, 29).is_none());
    assert!(Date::from_ymd(2024, 2, 29).is_some());
    assert!(Date::from_ymd(2025, 13, 1).is_none());
    assert!(Date::from_ymd(2025, 4, 31).is_none());
    assert!(Date::from_ymd(2025, 1, 0).is_none());
    assert!(Date::from_ymd(400000, 1, 1).is_none());
}

#[test]
fn weekdays_and_day_numbers_match_the_calendar() {
    let mut d = NaiveDate::from_ymd_opt(1899, 12, 1).unwrap();
    let end = NaiveDate::from_ymd_opt(2101, 2, 1).unwrap();
    let mut prev = to_date(d).day_number() - 1;
    while d < end {
        let ours = to_date(d);
        assert_eq!(ours.weekday() as u32, d.weekday().num_days_from_sunday());
        assert_eq!(ours.day_number(), prev + 1);
        prev = ours.day_number();
        d = d.succ_opt().unwrap();
    }
    // 2025-02-10 is a Monday, 2025-02-09 a Sunday.
    assert_eq!(Date::from_ymd(2025, 2, 10).unwrap().weekday(), 1);
    assert_eq!(Date::from_ymd(2025, 2, 9).unwrap().weekday(), 0);
}

#[test]
fn every_date_lies_in_its_period_and_maps_back_to_it() {
    let start = NaiveDate::from_ymd_opt(2023, 12, 1).unwrap();
    let end = NaiveDate::from_ymd_opt(2025, 3, 1).unwrap();
    for pay_day in 1..=31u8 {
        let mut d = start;
        while d < end {
            let (s, e) = get_pay_period(to_date(d), pay_day);
            let (ns, ne) = (to_naive(s), to_naive(e));
            assert!(ns <= d && d < ne, "{d} pay day {pay_day}");
            let mut other = ns;
            while other < ne {
                assert_eq!(get_pay_period(to_date(other), pay_day), (s, e));
                other = other.succ_opt().unwrap();
            }
            d = d.succ_opt().unwrap();
        }
    }
}

#[test]
fn pay_day_is_clamped_on_its_own_day_in_short_months() {
    // On 2025-02-28 with pay day 31 the new period has begun.
    let (s, e) = get_pay_period(Date::from_ymd(2025, 2, 28).unwrap(), 31);
    assert_eq!(s, Date::from_ymd(2025, 2, 28).unwrap());
    assert_eq!(e, Date::from_ymd(2025, 3, 31).unwrap());
    // Year rollover at both ends.
    let (s, e) = get_pay_period(Date::from_ymd(2025, 1, 5).unwrap(), 25);
    assert_eq!(s, Date::from_ymd(2024, 12, 25).unwrap());
    assert_eq!(e, Date::from_ymd(2025, 1, 25).unwrap());
    let (s, e) = get_pay_period(Date::from_ymd(2024, 12, 30).unwrap(), 25);
    assert_eq!(s, Date::from_ymd(2024, 12, 25).unwrap());
    assert_eq!(e, Date::from_ymd(2025, 1, 25).unwrap());
}

#[test]
fn work_days_are_counted_in_half_open_ranges() {
    let weekdays = [1u8, 2, 3, 4, 5];
    let s = Date::from_ymd(2025, 1, 25).unwrap();
    let e = Date::from_ymd(2025, 2, 25).unwrap();
    assert_eq!(get_work_days_in_period(s, e, &weekdays), 21);
    assert_eq!(get_worked_days_since_pay_day(s, Date::from_ymd(2025, 2, 10).unwrap(), &weekdays), 10);
    assert_eq!(get_work_days_in_period(s, s, &weekdays), 0);
    assert_eq!(get_work_days_in_period(e, s, &weekdays), 0);
    assert_eq!(get_work_days_in_period(s, e, &[]), 0);
    assert_eq!(get_work_days_in_period(s, e, &[0, 6]), 10);
}
