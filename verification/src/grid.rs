//! The six-week grid of a month, as a mathematical object, and what holds of
//! it for every month.

use crate::date::{days_in_month, year_in_range, Date, Ymd, MAX_YEAR, MIN_YEAR};
use vstd::prelude::*;

verus! {

/// Number of cells in a month grid: six weeks of seven days.
pub const GRID_CELLS: usize = 42;

/// The day in cell `i` of the grid of month `year`-`month`, where the first
/// day of that month falls on weekday `w` (0 for Sunday). Cells before `w`
/// hold the last `w` days of the month before; then come the days of the
/// month itself; the rest are the first days of the month after.
pub open spec fn grid_day(year: int, month: int, w: int, i: int) -> Ymd {
    let first = Ymd { year, month, day: 1 };
    let length = days_in_month(year, month);
    if i < w {
        let before = first.prev_month_start();
        Ymd {
            year: before.year,
            month: before.month,
            day: days_in_month(before.year, before.month) - w + 1 + i,
        }
    } else if i < w + length {
        Ymd { year, month, day: i - w + 1 }
    } else {
        let after = first.next_month_start();
        Ymd { year: after.year, month: after.month, day: i - w - length + 1 }
    }
}

/// The 42 cells of the grid of month `year`-`month` whose first day falls on
/// weekday `w`: every cell holds its day.
pub open spec fn month_grid(year: int, month: int, w: int) -> Seq<Option<Ymd>> {
    Seq::new(GRID_CELLS as nat, |i: int| Some(grid_day(year, month, w, i)))
}

/// Whether every day of that grid lies in a year that a [`Date`] can hold.
/// It does for every month but two: the first month of the first year, unless
/// it starts on a Sunday, whose grid begins in the year before; and the last
/// month of the last year, whose grid ends in the year after.
pub open spec fn grid_fits(year: int, month: int, w: int) -> bool {
    !(year == MIN_YEAR && month == 1 && w > 0) && !(year == MAX_YEAR && month == 12)
}

/// The cells of a computed grid as mathematical dates.
pub open spec fn cells_view(cells: Seq<Option<Date>>) -> Seq<Option<Ymd>> {
    Seq::new(
        cells.len(),
        |i: int|
            match cells[i] {
                Some(d) => Some(d@),
                None => None,
            },
    )
}

/// How many of `cells` hold a day of the month of `current`.
pub open spec fn count_in_month(cells: Seq<Option<Ymd>>, current: Ymd) -> nat
    decreases cells.len(),
{
    if cells.len() == 0 {
        0
    } else {
        let rest = count_in_month(cells.drop_last(), current);
        match cells.last() {
            Some(d) => if d.same_month(current) {
                rest + 1
            } else {
                rest
            },
            None => rest,
        }
    }
}

/// Each cell of a grid holds a day that exists, and the next cell holds the
/// day after it, which is a later day.
pub proof fn lemma_grid_days_follow(year: int, month: int, w: int, i: int)
    requires
        1 <= month <= 12,
        0 <= w < 7,
        0 <= i < GRID_CELLS - 1,
    ensures
        grid_day(year, month, w, i).is_calendar_day(),
        grid_day(year, month, w, i + 1).is_calendar_day(),
        grid_day(year, month, w, i + 1) == grid_day(year, month, w, i).next_day(),
        grid_day(year, month, w, i).precedes(grid_day(year, month, w, i + 1)),
{
}

/// The grid of any month, whatever weekday the month starts on, has 42
/// cells; every cell holds a day that exists; each cell holds the day after
/// that of the cell before it; and so the days strictly increase, without gap
/// or repeat.
pub proof fn lemma_grid_is_contiguous(year: int, month: int, w: int)
    requires
        1 <= month <= 12,
        0 <= w < 7,
    ensures
        month_grid(year, month, w).len() == GRID_CELLS,
        forall|i: int|
            0 <= i < GRID_CELLS ==> (#[trigger] month_grid(year, month, w)[i]) is Some
                && month_grid(year, month, w)[i].unwrap().is_calendar_day(),
        forall|i: int|
            0 <= i < GRID_CELLS - 1 ==> month_grid(year, month, w)[i + 1].unwrap() == (
            #[trigger] month_grid(year, month, w)[i]).unwrap().next_day(),
        forall|i: int, j: int|
            0 <= i < j < GRID_CELLS ==> (#[trigger] month_grid(year, month, w)[i]).unwrap().precedes(
                (#[trigger] month_grid(year, month, w)[j]).unwrap(),
            ),
{
}

/// Where the grid of a month fits the range of years, every day in it is one
/// that a [`Date`] can hold; where it does not, its first or its last day is
/// not.
pub proof fn lemma_grid_fits(year: int, month: int, w: int)
    requires
        year_in_range(year),
        1 <= month <= 12,
        0 <= w < 7,
    ensures
        grid_fits(year, month, w) ==> forall|i: int|
            0 <= i < GRID_CELLS ==> (#[trigger] grid_day(year, month, w, i)).is_valid(),
        !grid_fits(year, month, w) ==> !grid_day(year, month, w, 0).is_valid() || !grid_day(
            year,
            month,
            w,
            GRID_CELLS - 1,
        ).is_valid(),
{
    assert forall|i: int| 0 <= i < GRID_CELLS && grid_fits(year, month, w) implies (
    #[trigger] grid_day(year, month, w, i)).is_valid() by {
        if i < GRID_CELLS - 1 {
            lemma_grid_days_follow(year, month, w, i);
        } else {
            lemma_grid_days_follow(year, month, w, i - 1);
        }
    }
}

/// Among the first `k` cells of a grid, those of the month itself are the
/// ones from cell `w` on, up to the length of the month.
proof fn lemma_count_prefix(current: Ymd, w: int, k: int)
    requires
        current.is_valid(),
        0 <= w < 7,
        0 <= k <= GRID_CELLS,
    ensures
        count_in_month(month_grid(current.year, current.month, w).take(k), current) == if k <= w {
            0
        } else if k <= w + days_in_month(current.year, current.month) {
            k - w
        } else {
            days_in_month(current.year, current.month)
        },
    decreases k,
{
    let grid = month_grid(current.year, current.month, w);
    if k > 0 {
        lemma_count_prefix(current, w, k - 1);
        assert(grid.take(k).drop_last() =~= grid.take(k - 1));
    }
}

/// In the grid of the month of any day `current`, whatever weekday that
/// month starts on, the cells that hold a day of that month are as many as
/// the month has days: 28, 29, 30 or 31.
pub proof fn lemma_current_month_cells(current: Ymd, w: int)
    requires
        current.is_valid(),
        0 <= w < 7,
    ensures
        count_in_month(month_grid(current.year, current.month, w), current) == days_in_month(
            current.year,
            current.month,
        ),
        28 <= days_in_month(current.year, current.month) <= 31,
{
    let grid = month_grid(current.year, current.month, w);
    lemma_count_prefix(current, w, GRID_CELLS as int);
    assert(grid.take(GRID_CELLS as int) =~= grid);
}

} // verus!
