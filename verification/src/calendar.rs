//! The calendar behind a picker: the month on display, the selected day and
//! the moves between months and years.

use crate::chrono_calls::{
    pred, succ, sunday_based_weekday, weekday_from_sunday, with_day, with_month, with_year,
};
use crate::date::{days_in_month, year_in_range, Date, DateError, Ymd, MAX_YEAR, MIN_YEAR};
use crate::grid::{
    cells_view, grid_day, grid_fits, lemma_grid_days_follow, lemma_grid_fits, month_grid,
    GRID_CELLS,
};
use vstd::prelude::*;

verus! {

/// The month on display and the selected day, if any.
#[derive(Clone, Copy, Debug, PartialEq, Eq, Structural)]
pub struct Calendar {
    /// Any day of the month on display.
    pub current_month: Date,
    pub selected_date: Option<Date>,
}

/// The first day of the month of `date`.
pub(crate) fn first_of_month(date: Date) -> (first: Date)
    ensures
        first.wf(),
        first@ == date@.first_of_month(),
{
    proof {
        use_type_invariant(date);
    }
    with_day(date, 1).unwrap()
}

/// The first day of the month after that of `first`, or `None` after the
/// last month of the last year.
fn first_of_next_month(first: Date) -> (next: Option<Date>)
    requires
        first@.day == 1,
    ensures
        match next {
            Some(d) => d.wf() && d@ == first@.next_month_start(),
            None => !year_in_range(first@.next_month_start().year),
        },
{
    proof {
        use_type_invariant(first);
    }
    match with_month(first, first.month() + 1) {
        Some(d) => Some(d),
        // No month 13: the month after a December is the January of the next year.
        None => match with_year(first, first.year() + 1) {
            Some(january) => with_month(january, 1),
            None => None,
        },
    }
}

/// Whether `days` are the first cells of the grid of month `year`-`month`
/// whose first day falls on weekday `w`.
spec fn holds_grid_days(days: Seq<Option<Date>>, year: int, month: int, w: int) -> bool {
    forall|j: int|
        0 <= j < days.len() ==> ((#[trigger] days[j]) matches Some(d) && d.wf() && d@ == grid_day(
            year,
            month,
            w,
            j,
        ))
}

/// The number of days of the month that starts on `first`.
fn length_of_month(first: Date) -> (length: u32)
    requires
        first@.day == 1,
    ensures
        length == days_in_month(first@.year, first@.month),
{
    proof {
        use_type_invariant(first);
    }
    match first_of_next_month(first) {
        Some(next) => pred(next).unwrap().day(),
        // No month follows the last month of the last year: it is a December.
        None => 31,
    }
}

impl Calendar {
    /// What a move to the day `target` does to this calendar. Where the year
    /// of `target` is one that a [`Date`] can hold, the move succeeds:
    /// `after` shows `target` and keeps the selection. Where it is not, the
    /// move is refused with `DateRangeError` and `after` is this calendar
    /// unchanged.
    pub open spec fn moved(self, target: Ymd, after: Calendar, r: Result<(), DateError>) -> bool {
        if year_in_range(target.year) {
            r is Ok && after.current_month@ == target && after.selected_date == self.selected_date
        } else {
            r == Err::<(), DateError>(DateError::DateRangeError) && after == self
        }
    }

    /// A calendar that shows the month of `today`, with `today` selected.
    pub fn on(today: Date) -> (c: Calendar)
        ensures
            c.current_month == today,
            c.selected_date == Some(today),
    {
        Calendar { current_month: today, selected_date: Some(today) }
    }

    /// Moves to the first day of the month before. Before the first month of
    /// the first year there is none: the calendar then stays as it is.
    pub fn prev_month(&mut self) -> (r: Result<(), DateError>)
        ensures
            old(self).moved(old(self).current_month@.prev_month_start(), *final(self), r),
    {
        let first = first_of_month(self.current_month);
        match pred(first) {
            Some(last_of_prev) => {
                self.current_month = first_of_month(last_of_prev);
                Ok(())
            },
            None => Err(DateError::DateRangeError),
        }
    }

    /// Moves to the first day of the month after. After the last month of the
    /// last year there is none: the calendar then stays as it is.
    pub fn next_month(&mut self) -> (r: Result<(), DateError>)
        ensures
            old(self).moved(old(self).current_month@.next_month_start(), *final(self), r),
    {
        let first = first_of_month(self.current_month);
        match first_of_next_month(first) {
            Some(next) => {
                self.current_month = next;
                Ok(())
            },
            None => Err(DateError::DateRangeError),
        }
    }

    /// The same month and day in `year`, or the last day of that month where
    /// the year has no such day.
    fn moved_to_year(date: Date, year: i32) -> (moved: Date)
        requires
            year_in_range(year as int),
        ensures
            moved.wf(),
            moved@ == date@.in_year(year as int),
    {
        proof {
            use_type_invariant(date);
        }
        match with_year(date, year) {
            Some(d) => d,
            None => {
                // Only 29 February can be missing from a year.
                let shortened = with_day(date, 28).unwrap();
                with_year(shortened, year).unwrap()
            },
        }
    }

    /// Moves one year back, keeping month and day (29 February becomes 28
    /// February). Before the first year the calendar stays as it is.
    pub fn prev_year(&mut self) -> (r: Result<(), DateError>)
        ensures
            old(self).moved(
                old(self).current_month@.in_year(old(self).current_month@.year - 1),
                *final(self),
                r,
            ),
    {
        let year: i32 = self.current_month.year();
        if year <= MIN_YEAR {
            Err(DateError::DateRangeError)
        } else {
            self.current_month = Calendar::moved_to_year(self.current_month, year - 1);
            Ok(())
        }
    }

    /// Moves one year on, keeping month and day (29 February becomes 28
    /// February). After the last year the calendar stays as it is.
    pub fn next_year(&mut self) -> (r: Result<(), DateError>)
        ensures
            old(self).moved(
                old(self).current_month@.in_year(old(self).current_month@.year + 1),
                *final(self),
                r,
            ),
    {
        let year: i32 = self.current_month.year();
        if year >= MAX_YEAR {
            Err(DateError::DateRangeError)
        } else {
            self.current_month = Calendar::moved_to_year(self.current_month, year + 1);
            Ok(())
        }
    }

    /// The six weeks of seven days around the month on display, Sunday
    /// first, where `first_weekday` is the weekday of the first day of the
    /// month (0 for Sunday). Every cell holds its day. Where a day of the
    /// grid would lie outside the years that a [`Date`] can hold, there is no
    /// grid: the answer is `DateRangeError`.
    pub fn month_days_from(&self, first_weekday: u32) -> (r: Result<Vec<Option<Date>>, DateError>)
        requires
            first_weekday < 7,
        ensures
            r is Ok <==> grid_fits(
                self.current_month@.year,
                self.current_month@.month,
                first_weekday as int,
            ),
            r matches Ok(cells) ==> cells_view(cells@) == month_grid(
                self.current_month@.year,
                self.current_month@.month,
                first_weekday as int,
            ),
            r matches Err(e) ==> e == DateError::DateRangeError,
    {
        let first = first_of_month(self.current_month);
        let ghost year = first@.year;
        let ghost month = first@.month;
        let ghost w = first_weekday as int;
        proof {
            use_type_invariant(first);
        }
        let mut days: Vec<Option<Date>> = Vec::new();
        if first_weekday > 0 {
            let last_of_prev = match pred(first) {
                Some(d) => d,
                None => {
                    return Err(DateError::DateRangeError);
                },
            };
            let length_of_prev: u32 = last_of_prev.day();
            let mut day: u32 = length_of_prev - first_weekday + 1;
            while day <= length_of_prev
                invariant
                    0 < w < 7,
                    w == first_weekday,
                    1 <= month <= 12,
                    first@ == (Ymd { year, month, day: 1 }),
                    last_of_prev.wf(),
                    last_of_prev@ == first@.prev_day(),
                    length_of_prev == last_of_prev@.day,
                    length_of_prev - w + 1 <= day <= length_of_prev + 1,
                    days.len() == day - (length_of_prev - w + 1),
                    holds_grid_days(days@, year, month, w),
                decreases length_of_prev + 1 - day,
            {
                let cell = with_day(last_of_prev, day).unwrap();
                days.push(Some(cell));
                day += 1;
            }
        }
        let length: u32 = length_of_month(first);
        let mut day: u32 = 1;
        while day <= length
            invariant
                0 <= w < 7,
                year_in_range(year),
                1 <= month <= 12,
                first.wf(),
                first@ == (Ymd { year, month, day: 1 }),
                length == days_in_month(year, month),
                1 <= day <= length + 1,
                days.len() == w + day - 1,
                holds_grid_days(days@, year, month, w),
            decreases length + 1 - day,
        {
            let cell = with_day(first, day).unwrap();
            days.push(Some(cell));
            day += 1;
        }
        let mut last: Date = days[days.len() - 1].unwrap();
        while days.len() < GRID_CELLS
            invariant
                year == self.current_month@.year,
                month == self.current_month@.month,
                w == first_weekday,
                0 <= w < 7,
                year_in_range(year),
                1 <= month <= 12,
                w + days_in_month(year, month) <= days.len() <= GRID_CELLS,
                Some(last) == days@[days.len() - 1],
                holds_grid_days(days@, year, month, w),
            decreases GRID_CELLS - days.len(),
        {
            proof {
                lemma_grid_days_follow(year, month, w, days.len() - 1);
            }
            let next = match succ(last) {
                Some(d) => d,
                None => {
                    return Err(DateError::DateRangeError);
                },
            };
            days.push(Some(next));
            last = next;
        }
        proof {
            lemma_grid_fits(year, month, w);
            assert(days@[0] is Some && days@[GRID_CELLS - 1] is Some);
            assert(cells_view(days@) =~= month_grid(year, month, w));
        }
        Ok(days)
    }

    /// The six weeks of seven days around the month on display, Sunday
    /// first: cell 0 is the Sunday on or before the first day of the month,
    /// and every cell holds its day. The weekday of that first day is the one
    /// that chrono reports, a number from 0 for Sunday to 6 for Saturday.
    /// Where a day of the grid would lie outside the years that a [`Date`]
    /// can hold, the answer is `DateRangeError`.
    pub fn get_month_days(&self) -> (r: Result<Vec<Option<Date>>, DateError>)
        ensures
            0 <= sunday_based_weekday(self.current_month@.year, self.current_month@.month, 1) < 7,
            r is Ok <==> grid_fits(
                self.current_month@.year,
                self.current_month@.month,
                sunday_based_weekday(self.current_month@.year, self.current_month@.month, 1),
            ),
            r matches Ok(cells) ==> cells_view(cells@) == month_grid(
                self.current_month@.year,
                self.current_month@.month,
                sunday_based_weekday(self.current_month@.year, self.current_month@.month, 1),
            ),
            r matches Err(e) ==> e == DateError::DateRangeError,
    {
        let first = first_of_month(self.current_month);
        let first_weekday: u32 = weekday_from_sunday(first);
        self.month_days_from(first_weekday)
    }

    /// Whether `date` is today, where today is the day `today`: whether the
    /// two agree in year, month and day.
    pub fn is_today_on(&self, date: &Date, today: &Date) -> (r: bool)
        ensures
            r == (date@ == today@),
    {
        date.is_same_day(today)
    }

    /// Whether `date` is the selected day.
    pub fn is_selected(&self, date: &Date) -> (r: bool)
        ensures
            r == (self.selected_date == Some(*date)),
    {
        match self.selected_date {
            Some(selected) => date.is_same_day(&selected),
            None => false,
        }
    }

    /// Whether `date` lies in the month on display.
    pub fn is_current_month(&self, date: &Date) -> (r: bool)
        ensures
            r == date@.same_month(self.current_month@),
    {
        date.year() == self.current_month.year() && date.month() == self.current_month.month()
    }
}

/// Moving a month on and then a month back shows the month one started
/// from, the same year and the same month, also from December to January
/// and back; and the selection is untouched. This holds wherever the move
/// on is not refused, that is, for every month but the last of the last year.
pub proof fn lemma_next_then_prev_month(
    start: Calendar,
    between: Calendar,
    end: Calendar,
    there: Result<(), DateError>,
    back: Result<(), DateError>,
)
    requires
        start.current_month.wf(),
        start.moved(start.current_month@.next_month_start(), between, there),
        between.moved(between.current_month@.prev_month_start(), end, back),
        there is Ok,
    ensures
        back is Ok,
        end.current_month@.same_month(start.current_month@),
        end.selected_date == start.selected_date,
{
}

/// Moving a year on and then a year back shows the year and the month one
/// started from, and the selection is untouched. (The day may differ: 29
/// February comes back as 28 February.) This holds wherever the move on is
/// not refused, that is, for every year but the last.
pub proof fn lemma_next_then_prev_year(
    start: Calendar,
    between: Calendar,
    end: Calendar,
    there: Result<(), DateError>,
    back: Result<(), DateError>,
)
    requires
        start.current_month.wf(),
        start.moved(start.current_month@.in_year(start.current_month@.year + 1), between, there),
        between.moved(
            between.current_month@.in_year(between.current_month@.year - 1),
            end,
            back,
        ),
        there is Ok,
    ensures
        back is Ok,
        end.current_month@.year == start.current_month@.year,
        end.current_month@.same_month(start.current_month@),
        end.selected_date == start.selected_date,
{
}

} // verus!
