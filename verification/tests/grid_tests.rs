use chrono::{Datelike, NaiveDate};
use date_picker::calendar::Calendar;
use date_picker::date::{Date, DateError, MAX_YEAR, MIN_YEAR};
use date_picker::grid::GRID_CELLS;

fn day(year: i32, month: u32, day: u32) -> Date {
    Date::new(year, month, day).unwrap()
}

fn showing(year: i32, month: u32) -> Calendar {
    Calendar { current_month: day(year, month, 1), selected_date: None }
}

fn grid_of(year: i32, month: u32) -> Vec<Option<Date>> {
    showing(year, month).get_month_days().unwrap()
}

fn naive(date: Date) -> NaiveDate {
    NaiveDate::from_ymd_opt(date.year(), date.month(), date.day()).unwrap()
}

fn current_month_cells(cal: &Calendar) -> usize {
    cal.get_month_days().unwrap().iter().flatten().filter(|d| cal.is_current_month(d)).count()
}

#[test]
fn grid_has_42_cells_for_every_month() {
    assert_eq!(GRID_CELLS, 42);
    for year in [MIN_YEAR + 1, -1, 0, 1900, 2000, 2023, 2024, MAX_YEAR - 1] {
        for month in 1..=12u32 {
            let grid = grid_of(year, month);
            assert_eq!(grid.len(), 42);
            assert!(grid.iter().all(|cell| cell.is_some()));
        }
    }
}

#[test]
fn grid_days_are_consecutive_and_increasing() {
    for year in 1995..=2035 {
        for month in 1..=12u32 {
            let grid = grid_of(year, month);
            for i in 0..41 {
                let here = grid[i].unwrap();
                let next = grid[i + 1].unwrap();
                assert_eq!(naive(here).succ_opt().unwrap(), naive(next));
                assert!(here.precedes(&next));
                assert!(!next.precedes(&here));
            }
        }
    }
}

#[test]
fn grid_starts_on_the_sunday_on_or_before_the_first() {
    for year in [-400, 0, 1900, 2000, 2023, 2024, 2025] {
        for month in 1..=12u32 {
            let grid = grid_of(year, month);
            let first = NaiveDate::from_ymd_opt(year, month, 1).unwrap();
            let w = first.weekday().num_days_from_sunday() as usize;
            assert_eq!(naive(grid[0].unwrap()).weekday(), chrono::Weekday::Sun);
            assert_eq!(grid[w], Some(day(year, month, 1)));
            assert!(w < 7);
        }
    }
}

#[test]
fn current_month_cells_are_as_many_as_the_month_has_days() {
    let lengths = [31, 28, 31, 30, 31, 30, 31, 31, 30, 31, 30, 31];
    for year in [MIN_YEAR + 1, -4, 1900, 2000, 2023, 2024, MAX_YEAR - 1] {
        let leap = year % 4 == 0 && (year % 100 != 0 || year % 400 == 0);
        for month in 1..=12u32 {
            let expected = if month == 2 && leap { 29 } else { lengths[(month - 1) as usize] };
            assert_eq!(current_month_cells(&showing(year, month)), expected);
        }
    }
}

#[test]
fn february_has_29_cells_in_2024_and_28_in_2023() {
    assert_eq!(current_month_cells(&showing(2024, 2)), 29);
    assert_eq!(current_month_cells(&showing(2023, 2)), 28);
}

#[test]
fn january_2024_has_one_leading_day_and_runs_into_february() {
    let grid = grid_of(2024, 1);
    assert_eq!(grid.len(), 42);
    assert_eq!(grid[0], Some(day(2023, 12, 31)));
    assert_eq!(grid[1], Some(day(2024, 1, 1)));
    assert_eq!(grid[31], Some(day(2024, 1, 31)));
    assert_eq!(grid[32], Some(day(2024, 2, 1)));
    assert_eq!(grid[41], Some(day(2024, 2, 10)));
}

#[test]
fn grid_does_not_depend_on_the_day_shown() {
    let from_first = grid_of(2024, 5);
    let mid = Calendar { current_month: day(2024, 5, 17), selected_date: Some(day(2024, 5, 3)) };
    assert_eq!(mid.get_month_days(), Ok(from_first));
}

#[test]
fn month_starting_on_sunday_has_no_leading_days() {
    // 1 September 2024 is a Sunday.
    let grid = grid_of(2024, 9);
    assert_eq!(grid[0], Some(day(2024, 9, 1)));
    assert_eq!(grid[29], Some(day(2024, 9, 30)));
    assert_eq!(grid[30], Some(day(2024, 10, 1)));
    assert_eq!(grid[41], Some(day(2024, 10, 12)));
}

#[test]
fn month_starting_on_saturday_has_six_leading_days() {
    // 1 June 2024 is a Saturday.
    let grid = grid_of(2024, 6);
    assert_eq!(grid[0], Some(day(2024, 5, 26)));
    assert_eq!(grid[5], Some(day(2024, 5, 31)));
    assert_eq!(grid[6], Some(day(2024, 6, 1)));
    assert_eq!(grid[35], Some(day(2024, 6, 30)));
    assert_eq!(grid[36], Some(day(2024, 7, 1)));
    assert_eq!(grid[41], Some(day(2024, 7, 6)));
}

#[test]
fn short_february_starting_on_sunday_leaves_two_trailing_weeks() {
    // 1 February 2015 is a Sunday, and 2015 is no leap year.
    let grid = grid_of(2015, 2);
    assert_eq!(grid[0], Some(day(2015, 2, 1)));
    assert_eq!(grid[27], Some(day(2015, 2, 28)));
    assert_eq!(grid[28], Some(day(2015, 3, 1)));
    assert_eq!(grid[41], Some(day(2015, 3, 14)));
}

#[test]
fn leading_days_come_from_a_leap_february() {
    // 1 March 2024 is a Friday.
    let grid = grid_of(2024, 3);
    assert_eq!(grid[0], Some(day(2024, 2, 25)));
    assert_eq!(grid[4], Some(day(2024, 2, 29)));
    assert_eq!(grid[5], Some(day(2024, 3, 1)));
}

#[test]
fn december_grid_runs_into_the_next_year() {
    // 1 December 2024 is a Sunday.
    let grid = grid_of(2024, 12);
    assert_eq!(grid[0], Some(day(2024, 12, 1)));
    assert_eq!(grid[30], Some(day(2024, 12, 31)));
    assert_eq!(grid[31], Some(day(2025, 1, 1)));
    assert_eq!(grid[41], Some(day(2025, 1, 11)));
}

#[test]
fn month_days_from_lays_the_month_out_for_the_weekday_given() {
    let cal = showing(2024, 1);
    for w in 0..7u32 {
        let grid = cal.month_days_from(w).unwrap();
        assert_eq!(grid.len(), 42);
        assert_eq!(grid[w as usize], Some(day(2024, 1, 1)));
        assert_eq!(grid[w as usize + 30], Some(day(2024, 1, 31)));
        assert_eq!(grid[w as usize + 31], Some(day(2024, 2, 1)));
        if w > 0 {
            assert_eq!(grid[0], Some(day(2023, 12, 32 - w)));
            assert_eq!(grid[w as usize - 1], Some(day(2023, 12, 31)));
        }
        assert_eq!(grid[41], Some(day(2024, 2, 11 - w)));
    }
    assert_eq!(cal.month_days_from(1), cal.get_month_days());
}

#[test]
fn last_month_of_the_last_year_has_no_grid() {
    let cal = showing(MAX_YEAR, 12);
    assert_eq!(cal.get_month_days(), Err(DateError::DateRangeError));
    for w in 0..7u32 {
        assert_eq!(cal.month_days_from(w), Err(DateError::DateRangeError));
    }
    let november = grid_of(MAX_YEAR, 11);
    assert_eq!(november.len(), 42);
    assert_eq!(november[41].unwrap().year(), MAX_YEAR);
    assert_eq!(november[41].unwrap().month(), 12);
}

#[test]
fn first_month_of_the_first_year_has_a_grid_only_from_a_sunday() {
    let cal = showing(MIN_YEAR, 1);
    let grid = cal.month_days_from(0).unwrap();
    assert_eq!(grid.len(), 42);
    assert_eq!(grid[0], Some(day(MIN_YEAR, 1, 1)));
    assert_eq!(grid[30], Some(day(MIN_YEAR, 1, 31)));
    assert_eq!(grid[31], Some(day(MIN_YEAR, 2, 1)));
    assert_eq!(grid[41], Some(day(MIN_YEAR, 2, 11)));
    for w in 1..7u32 {
        assert_eq!(cal.month_days_from(w), Err(DateError::DateRangeError));
    }
    let w = naive(day(MIN_YEAR, 1, 1)).weekday().num_days_from_sunday();
    assert_eq!(cal.get_month_days().is_ok(), w == 0);
    assert_eq!(grid_of(MIN_YEAR, 2).len(), 42);
}
