//! Decisions of the once-per-second ticker: which override records apply
//! today, what the menubar label says, and which side effects a tick drives.

use vstd::prelude::*;
use vstd::string::StringExecFns;

use crate::calendar::{date_key, iso_date_text, Date};
use crate::money::{format_tray_title, tray_title_text, Money};
use crate::salary::{SalaryTickPayload, WorkStatus};
use crate::text::same_text;
use crate::types::{MenubarDisplayMode, UserSettings};

verus! {

/// The characters of an optional text.
pub open spec fn text_of(o: Option<String>) -> Option<Seq<char>> {
    match o {
        Some(s) => Some(s@),
        None => None,
    }
}

/// Today's override records, each kept only where it is dated today.
pub struct TodayOverrides {
    /// Today is paid time off.
    pub is_on_vacation: bool,
    /// Start and end time that replace today's schedule.
    pub schedule: Option<(String, String)>,
}

/// The overrides that apply on the day written `today_key`: the vacation record
/// when its date is `today_key`, and likewise the schedule record
/// `(date, start, end)`. Records of other days are ignored.
pub fn today_overrides(
    today_key: &str,
    vacation_date: Option<&str>,
    schedule: Option<(&str, &str, &str)>,
) -> (r: TodayOverrides)
    ensures
        r.is_on_vacation == (vacation_date is Some && vacation_date.unwrap()@ == today_key@),
        r.schedule is Some <==> (schedule is Some && schedule.unwrap().0@ == today_key@),
        r.schedule is Some ==> r.schedule.unwrap().0@ == schedule.unwrap().1@ && r.schedule.unwrap().1@
            == schedule.unwrap().2@,
{
    let is_on_vacation = match vacation_date {
        Some(date) => same_text(date, today_key),
        None => false,
    };
    let schedule = match schedule {
        Some((date, start, end)) => {
            if same_text(date, today_key) {
                Some((String::from_str(start), String::from_str(end)))
            } else {
                None
            }
        },
        None => None,
    };
    TodayOverrides { is_on_vacation, schedule }
}

/// The overrides that apply on `today`, whose records are dated "YYYY-MM-DD"
/// (see [`today_overrides`]).
pub fn overrides_for(
    today: &Date,
    vacation_date: Option<&str>,
    schedule: Option<(&str, &str, &str)>,
) -> (r: TodayOverrides)
    requires
        today.wf(),
    ensures
        0 <= today.year <= 9999 ==> {
            &&& r.is_on_vacation == (vacation_date is Some && vacation_date.unwrap()@ == iso_date_text(
                *today,
            ))
            &&& r.schedule is Some <==> (schedule is Some && schedule.unwrap().0@ == iso_date_text(
                *today,
            ))
        },
        r.schedule is Some ==> r.schedule.unwrap().0@ == schedule.unwrap().1@ && r.schedule.unwrap().1@
            == schedule.unwrap().2@,
{
    let key = date_key(today);
    today_overrides(key.as_str(), vacation_date, schedule)
}

/// The engine works only once settings are loaded and onboarding is completed.
pub fn engine_ready(settings: &Option<UserSettings>) -> (r: bool)
    ensures
        r == (settings is Some && settings->0.onboarding_completed),
{
    match settings {
        Some(s) => s.onboarding_completed,
        None => false,
    }
}

/// The amount that the menubar shows: none when the display is hidden or on a
/// day off, else today's or the accumulated earnings.
pub open spec fn shown_amount(mode: MenubarDisplayMode, p: SalaryTickPayload) -> Option<Money> {
    if mode == MenubarDisplayMode::Hidden || p.work_status == WorkStatus::DayOff {
        None
    } else if mode == MenubarDisplayMode::Daily {
        Some(p.today_earnings)
    } else {
        Some(p.accumulated_earnings)
    }
}

/// The menubar label for a snapshot (see [`shown_amount`] and [`tray_title_text`]).
pub fn tray_title(mode: MenubarDisplayMode, payload: &SalaryTickPayload) -> (r: Option<String>)
    requires
        payload.wf(),
    ensures
        r is Some <==> shown_amount(mode, *payload) is Some,
        r is Some ==> r->0@ == tray_title_text(shown_amount(mode, *payload)->0),
{
    match mode {
        MenubarDisplayMode::Hidden => None,
        MenubarDisplayMode::Daily => {
            if payload.work_status == WorkStatus::DayOff {
                None
            } else {
                Some(format_tray_title(&payload.today_earnings))
            }
        },
        MenubarDisplayMode::Accumulated => {
            if payload.work_status == WorkStatus::DayOff {
                None
            } else {
                Some(format_tray_title(&payload.accumulated_earnings))
            }
        },
    }
}

/// Side effects that one tick drives.
pub struct TickActions {
    /// The new label, when it differs from the last one set (`Some(None)` clears it).
    pub set_title: Option<Option<String>>,
    /// The new working state, when it differs from the last one: starts or
    /// stops the icon animation.
    pub set_working: Option<bool>,
    /// The snapshot to publish; every tick that computed one publishes it.
    pub publish: Option<SalaryTickPayload>,
}

/// What the ticker remembers between ticks: the last label and working state
/// that it drove, to act only on change.
pub struct TickerState {
    pub prev_title: Option<String>,
    pub prev_is_working: Option<bool>,
}

fn same_title(a: &Option<String>, b: &Option<String>) -> (r: bool)
    ensures
        r == (text_of(*a) == text_of(*b)),
{
    match (a, b) {
        (Some(x), Some(y)) => *x == *y,
        (None, None) => true,
        _ => false,
    }
}

impl TickerState {
    /// Nothing driven yet.
    pub fn new() -> (r: TickerState)
        ensures
            r.prev_title is None,
            r.prev_is_working is None,
    {
        TickerState { prev_title: None, prev_is_working: None }
    }

    /// Decides the side effects of one tick. Without a snapshot nothing happens.
    /// With one, the label is set only when its text changed, the working state
    /// only when it changed, and the snapshot is always published.
    pub fn on_tick(&mut self, mode: MenubarDisplayMode, payload: Option<SalaryTickPayload>) -> (r:
        TickActions)
        requires
            payload is Some ==> payload->0.wf(),
        ensures
            payload is None ==> {
                &&& r.set_title is None
                &&& r.set_working is None
                &&& r.publish is None
                &&& text_of(final(self).prev_title) == text_of(old(self).prev_title)
                &&& final(self).prev_is_working == old(self).prev_is_working
            },
            payload is Some ==> {
                let p = payload->0;
                let title = match shown_amount(mode, p) {
                    Some(m) => Some(tray_title_text(m)),
                    None => None,
                };
                let working = p.work_status == WorkStatus::Working;
                &&& r.publish == payload
                &&& text_of(final(self).prev_title) == title
                &&& final(self).prev_is_working == Some(working)
                &&& (r.set_title is Some <==> title != text_of(old(self).prev_title))
                &&& (r.set_title is Some ==> text_of(r.set_title->0) == title)
                &&& (r.set_working is Some <==> old(self).prev_is_working != Some(working))
                &&& (r.set_working is Some ==> r.set_working->0 == working)
            },
    {
        match payload {
            None => TickActions { set_title: None, set_working: None, publish: None },
            Some(p) => {
                let title = tray_title(mode, &p);
                let set_title = if same_title(&title, &self.prev_title) {
                    None
                } else {
                    Some(title.clone())
                };
                self.prev_title = title;
                let working = p.work_status == WorkStatus::Working;
                let set_working = match self.prev_is_working {
                    Some(w) => {
                        if w == working {
                            None
                        } else {
                            Some(working)
                        }
                    },
                    None => Some(working),
                };
                self.prev_is_working = Some(working);
                TickActions { set_title, set_working, publish: Some(p) }
            },
        }
    }
}

} // verus!
