//! What a picker hands to whatever draws it: its text, its flags and the 42
//! cells of its month, each with the marks that decide how the cell looks.

use crate::calendar::{first_of_month, Calendar};
use crate::chrono_calls::{sunday_based_weekday, weekday_from_sunday};
use crate::date::{Date, DateError};
use crate::grid::{cells_view, grid_day, grid_fits, month_grid, GRID_CELLS};
use crate::picker::DatePicker;
use vstd::prelude::*;

verus! {

/// One cell of a month grid, as drawn.
#[derive(Clone, Copy, Debug, PartialEq, Eq, Structural)]
pub struct CellView {
    pub date: Date,
    /// Whether the day belongs to the month on display, not to the padding.
    pub is_in_current_month: bool,
    pub is_today: bool,
    pub is_selected: bool,
}

/// A picker, as drawn.
#[derive(Debug, PartialEq, Eq)]
pub struct PickerSnapshot {
    pub display_text: String,
    pub is_open: bool,
    pub show_above: bool,
    pub grid: Vec<CellView>,
}

impl Calendar {
    /// How the cell of the day `date` is drawn on the day `today`.
    pub open spec fn cell_on(self, date: Date, today: Date) -> CellView {
        CellView {
            date,
            is_in_current_month: date@.same_month(self.current_month@),
            is_today: date == today,
            is_selected: self.selected_date == Some(date),
        }
    }

    /// Whether `view` is how this calendar draws a cell on some day: all of
    /// it follows from the day in the cell, but whether that day is today.
    pub open spec fn draws(self, view: CellView) -> bool {
        view.is_in_current_month == view.date@.same_month(self.current_month@) && view.is_selected
            == (self.selected_date == Some(view.date))
    }

    /// The cell of the day `date`, as drawn on the day `today`.
    pub fn cell_view(&self, date: Date, today: &Date) -> (view: CellView)
        ensures
            view == self.cell_on(date, *today),
    {
        CellView {
            date,
            is_in_current_month: self.is_current_month(&date),
            is_today: self.is_today_on(&date, today),
            is_selected: self.is_selected(&date),
        }
    }
}

impl DatePicker {
    /// Whether `shot` shows this picker with the grid of its month laid out
    /// for a first day that falls on weekday `w`.
    pub open spec fn drawn_as(self, shot: PickerSnapshot, w: int) -> bool {
        &&& shot.display_text@ == self.display_text()
        &&& shot.is_open == self.is_open
        &&& shot.show_above == self.show_above
        &&& shot.grid@.len() == GRID_CELLS
        &&& forall|i: int|
            0 <= i < GRID_CELLS ==> (#[trigger] shot.grid@[i]).date@ == grid_day(
                self.calendar.current_month@.year,
                self.calendar.current_month@.month,
                w,
                i,
            ) && self.calendar.draws(shot.grid@[i])
    }

    /// The picker as drawn on the day `today`, for a month whose first day
    /// falls on the weekday `first_weekday` (0 for Sunday). Where the grid of
    /// the month does not fit the range of years, the answer is
    /// `DateRangeError`.
    pub fn snapshot_on(&self, first_weekday: u32, today: Date) -> (r: Result<
        PickerSnapshot,
        DateError,
    >)
        requires
            first_weekday < 7,
        ensures
            r is Ok <==> grid_fits(
                self.calendar.current_month@.year,
                self.calendar.current_month@.month,
                first_weekday as int,
            ),
            r matches Ok(shot) ==> self.drawn_as(shot, first_weekday as int) && forall|i: int|
                0 <= i < GRID_CELLS ==> #[trigger] shot.grid@[i] == self.calendar.cell_on(
                    shot.grid@[i].date,
                    today,
                ),
            r matches Err(e) ==> e == DateError::DateRangeError,
    {
        let cells = match self.calendar.month_days_from(first_weekday) {
            Ok(cells) => cells,
            Err(e) => {
                return Err(e);
            },
        };
        let ghost month = month_grid(
            self.calendar.current_month@.year,
            self.calendar.current_month@.month,
            first_weekday as int,
        );
        assert(cells@.len() == GRID_CELLS) by {
            assert(cells_view(cells@).len() == month.len());
        }
        let mut grid: Vec<CellView> = Vec::new();
        let mut i: usize = 0;
        while i < cells.len()
            invariant
                i <= cells@.len(),
                cells@.len() == GRID_CELLS,
                cells_view(cells@) == month,
                month == month_grid(
                    self.calendar.current_month@.year,
                    self.calendar.current_month@.month,
                    first_weekday as int,
                ),
                grid@.len() == i,
                forall|j: int| 0 <= j < i ==> Some((#[trigger] grid@[j]).date) == cells@[j],
                forall|j: int|
                    0 <= j < i ==> #[trigger] grid@[j] == self.calendar.cell_on(grid@[j].date, today),
            decreases cells@.len() - i,
        {
            assert(cells@[i as int] is Some) by {
                assert(cells_view(cells@)[i as int] == month[i as int]);
            }
            let date = cells[i].unwrap();
            let view = self.calendar.cell_view(date, &today);
            grid.push(view);
            i += 1;
        }
        proof {
            assert forall|j: int| 0 <= j < GRID_CELLS implies (#[trigger] grid@[j]).date@
                == grid_day(
                self.calendar.current_month@.year,
                self.calendar.current_month@.month,
                first_weekday as int,
                j,
            ) by {
                assert(cells_view(cells@)[j] == month[j]);
            }
        }
        Ok(
            PickerSnapshot {
                display_text: self.format_date(),
                is_open: self.is_open,
                show_above: self.show_above,
                grid,
            },
        )
    }

    /// The picker as drawn on the day `today`. The weekday of the first day
    /// of the month, which decides where the grid starts, is the one that
    /// chrono reports: a number from 0 for Sunday to 6 for Saturday. Where
    /// the grid of the month does not fit the range of years, the answer is
    /// `DateRangeError`.
    pub fn snapshot_at(&self, today: Date) -> (r: Result<PickerSnapshot, DateError>)
        ensures
            0 <= sunday_based_weekday(
                self.calendar.current_month@.year,
                self.calendar.current_month@.month,
                1,
            ) < 7,
            r is Ok <==> grid_fits(
                self.calendar.current_month@.year,
                self.calendar.current_month@.month,
                sunday_based_weekday(
                    self.calendar.current_month@.year,
                    self.calendar.current_month@.month,
                    1,
                ),
            ),
            r matches Ok(shot) ==> self.drawn_as(
                shot,
                sunday_based_weekday(
                    self.calendar.current_month@.year,
                    self.calendar.current_month@.month,
                    1,
                ),
            ) && forall|i: int|
                0 <= i < GRID_CELLS ==> #[trigger] shot.grid@[i] == self.calendar.cell_on(
                    shot.grid@[i].date,
                    today,
                ),
            r matches Err(e) ==> e == DateError::DateRangeError,
    {
        let first = first_of_month(self.calendar.current_month);
        let first_weekday: u32 = weekday_from_sunday(first);
        self.snapshot_on(first_weekday, today)
    }
}

} // verus!
