//! The calls into the `chrono` crate. Each function here is believed, not
//! proved: its contract says what chrono's source and documentation show of
//! the call that its body makes.

use crate::date::{days_in_month, year_in_range, Date, Ymd};
use chrono::{Datelike, NaiveDate};
use vstd::prelude::*;

verus! {

/// The number that chrono gives to the weekday of the day `year`-`month`-`day`,
/// counted from Sunday: what `NaiveDate::weekday` followed by
/// `Weekday::num_days_from_sunday` returns for that day.
pub uninterp spec fn sunday_based_weekday(year: int, month: int, day: int) -> int;

/// `NaiveDate::with_day`: the same year and month with the day replaced, or
/// `None` where that month has no such day.
#[verifier::external_body]
pub(crate) fn with_day(date: Date, day: u32) -> (r: Option<Date>)
    requires
        date.wf(),
    ensures
        match r {
            Some(d) => d.wf() && d@ == (Ymd {
                year: date@.year,
                month: date@.month,
                day: day as int,
            }),
            None => !(1 <= day <= days_in_month(date@.year, date@.month)),
        },
{
    let moved = NaiveDate::from_ymd_opt(date.year, date.month, date.day)?.with_day(day)?;
    Some(Date { year: moved.year(), month: moved.month(), day: moved.day() })
}

/// `NaiveDate::with_month`: the same year and day with the month replaced, or
/// `None` where `month` is not one of 1 to 12 or that month has no such day.
#[verifier::external_body]
pub(crate) fn with_month(date: Date, month: u32) -> (r: Option<Date>)
    requires
        date.wf(),
    ensures
        match r {
            Some(d) => d.wf() && d@ == (Ymd {
                year: date@.year,
                month: month as int,
                day: date@.day,
            }),
            None => !(1 <= month <= 12 && date@.day <= days_in_month(date@.year, month as int)),
        },
{
    let moved = NaiveDate::from_ymd_opt(date.year, date.month, date.day)?.with_month(month)?;
    Some(Date { year: moved.year(), month: moved.month(), day: moved.day() })
}

/// `NaiveDate::with_year`: the same month and day with the year replaced, or
/// `None` where `year` is out of range or has no such day (29 February of a
/// year that is not a leap year).
#[verifier::external_body]
pub(crate) fn with_year(date: Date, year: i32) -> (r: Option<Date>)
    requires
        date.wf(),
    ensures
        match r {
            Some(d) => d.wf() && d@ == (Ymd {
                year: year as int,
                month: date@.month,
                day: date@.day,
            }),
            None => !(year_in_range(year as int) && date@.day <= days_in_month(
                year as int,
                date@.month,
            )),
        },
{
    let moved = NaiveDate::from_ymd_opt(date.year, date.month, date.day)?.with_year(year)?;
    Some(Date { year: moved.year(), month: moved.month(), day: moved.day() })
}

/// `NaiveDate::pred_opt`: the day before, or `None` for the first day of the
/// first year.
#[verifier::external_body]
pub(crate) fn pred(date: Date) -> (r: Option<Date>)
    requires
        date.wf(),
    ensures
        match r {
            Some(d) => d.wf() && d@ == date@.prev_day(),
            None => !year_in_range(date@.prev_day().year),
        },
{
    let moved = NaiveDate::from_ymd_opt(date.year, date.month, date.day)?.pred_opt()?;
    Some(Date { year: moved.year(), month: moved.month(), day: moved.day() })
}

/// `NaiveDate::succ_opt`: the day after, or `None` for the last day of the
/// last year.
#[verifier::external_body]
pub(crate) fn succ(date: Date) -> (r: Option<Date>)
    requires
        date.wf(),
    ensures
        match r {
            Some(d) => d.wf() && d@ == date@.next_day(),
            None => !year_in_range(date@.next_day().year),
        },
{
    let moved = NaiveDate::from_ymd_opt(date.year, date.month, date.day)?.succ_opt()?;
    Some(Date { year: moved.year(), month: moved.month(), day: moved.day() })
}

/// `NaiveDate::weekday` followed by `Weekday::num_days_from_sunday`: 0 for a
/// Sunday up to 6 for a Saturday.
#[verifier::external_body]
pub(crate) fn weekday_from_sunday(date: Date) -> (w: u32)
    requires
        date.wf(),
    ensures
        w == sunday_based_weekday(date@.year, date@.month, date@.day),
        w < 7,
{
    let day = NaiveDate::from_ymd_opt(date.year, date.month, date.day).unwrap();
    day.weekday().num_days_from_sunday()
}

} // verus!
