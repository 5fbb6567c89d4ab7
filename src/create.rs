//! Planning a new sprint: its milestone's title and its dates.
use vstd::prelude::*;

use chrono::Datelike;

use crate::date::{Date, DateTime};

verus! {

/// The day `days` days after `year-month-day`, as `chrono` counts it; `None`
/// for a day it cannot represent.
pub uninterp spec fn date_plus_days(year: i32, month: u32, day: u32, days: u64) -> Option<
    (i32, u32, u32),
>;

/// Relies on chrono::NaiveDate::from_ymd_opt and NaiveDate::checked_add_days:
/// the calendar day `days` days later.
#[verifier::external_body]
fn add_days(date: Date, days: u64) -> (r: Option<Date>)
    ensures
        match r {
            Some(d) => date_plus_days(date.year, date.month, date.day, days) == Some(
                (d.year, d.month, d.day),
            ),
            None => date_plus_days(date.year, date.month, date.day, days) is None,
        },
{
    match chrono::NaiveDate::from_ymd_opt(date.year, date.month, date.day) {
        Some(d) => match d.checked_add_days(chrono::Days::new(days)) {
            Some(later) => Some(Date { year: later.year(), month: later.month(), day: later.day() }),
            None => None,
        },
        None => None,
    }
}

/// The number of days from a sprint's first day to its last.
pub const SPRINT_DAYS: u64 = 13;

/// A sprint to be created: its milestone's title, when it starts and when it
/// is due.
pub struct SprintPlan {
    pub title: String,
    pub start_date: DateTime,
    pub due_on: DateTime,
}

/// Midday, UTC, on `date`, as the overlay's own pages set sprint dates.
pub open spec fn midday(date: Date) -> DateTime {
    DateTime { date, hour: 12, minute: 0, second: 0, offset_seconds: 0 }
}

/// The plan of sprint `sprint_number` from `start` to `due`: the milestone is
/// titled `Sprint <number>`, and both days begin at midday.
pub fn sprint_plan(sprint_number: &str, start: Date, due: Date) -> (r: SprintPlan)
    ensures
        r.title@ == "Sprint "@ + sprint_number@,
        r.start_date == midday(start),
        r.due_on == midday(due),
{
    let mut title = "Sprint ".to_owned();
    title.append(sprint_number);
    SprintPlan {
        title,
        start_date: DateTime { date: start, hour: 12, minute: 0, second: 0, offset_seconds: 0 },
        due_on: DateTime { date: due, hour: 12, minute: 0, second: 0, offset_seconds: 0 },
    }
}

/// Plans sprint `sprint_number` from `today` for two weeks, its last day
/// `SPRINT_DAYS` days on; `None` if that day cannot be represented.
pub fn new_sprint(sprint_number: &str, today: Date) -> (r: Option<SprintPlan>)
    ensures
        match date_plus_days(today.year, today.month, today.day, SPRINT_DAYS) {
            Some((y, m, d)) => r is Some && r->0.title@ == "Sprint "@ + sprint_number@
                && r->0.start_date == midday(today) && r->0.due_on == midday(
                Date { year: y, month: m, day: d },
            ),
            None => r is None,
        },
{
    match add_days(today, SPRINT_DAYS) {
        Some(due) => Some(sprint_plan(sprint_number, today, due)),
        None => None,
    }
}

} // verus!
