use chrono::{Datelike, Local};
use date_picker::calendar::Calendar;
use date_picker::date::{Date, DateError, MAX_YEAR, MIN_YEAR};

fn day(year: i32, month: u32, day: u32) -> Date {
    Date::new(year, month, day).unwrap()
}

fn showing(year: i32, month: u32, on_day: u32) -> Calendar {
    Calendar { current_month: day(year, month, on_day), selected_date: None }
}

#[test]
fn calendar_on_the_day_of_the_clock_shows_and_selects_it() {
    let now = Local::now().date_naive();
    let today = day(now.year(), now.month(), now.day());
    let cal = Calendar::on(today);
    assert_eq!(cal.current_month, today);
    assert_eq!(cal.selected_date, Some(today));
    assert!(cal.is_today_on(&cal.current_month, &today));
}

#[test]
fn calendar_on_a_day_shows_and_selects_it() {
    let cal = Calendar::on(day(2024, 2, 29));
    assert_eq!(cal.current_month, day(2024, 2, 29));
    assert_eq!(cal.selected_date, Some(day(2024, 2, 29)));
}

#[test]
fn prev_month_goes_to_the_first_of_the_month_before() {
    let mut cal = showing(2024, 3, 15);
    assert_eq!(cal.prev_month(), Ok(()));
    assert_eq!(cal.current_month, day(2024, 2, 1));
    assert_eq!(cal.prev_month(), Ok(()));
    assert_eq!(cal.current_month, day(2024, 1, 1));
}

#[test]
fn prev_month_from_january_goes_to_december() {
    let mut cal = showing(2024, 1, 31);
    assert_eq!(cal.prev_month(), Ok(()));
    assert_eq!(cal.current_month, day(2023, 12, 1));
}

#[test]
fn next_month_goes_to_the_first_of_the_month_after() {
    let mut cal = showing(2024, 3, 15);
    assert_eq!(cal.next_month(), Ok(()));
    assert_eq!(cal.current_month, day(2024, 4, 1));
}

#[test]
fn next_month_from_the_31st_does_not_skip_a_short_month() {
    let mut cal = showing(2024, 1, 31);
    assert_eq!(cal.next_month(), Ok(()));
    assert_eq!(cal.current_month, day(2024, 2, 1));
}

#[test]
fn next_month_from_december_goes_to_january() {
    let mut cal = showing(2023, 12, 25);
    assert_eq!(cal.next_month(), Ok(()));
    assert_eq!(cal.current_month, day(2024, 1, 1));
}

#[test]
fn month_moves_keep_the_selection() {
    let mut cal = showing(2024, 3, 15);
    cal.selected_date = Some(day(2020, 7, 4));
    cal.next_month().unwrap();
    assert_eq!(cal.selected_date, Some(day(2020, 7, 4)));
    cal.prev_month().unwrap();
    cal.prev_year().unwrap();
    cal.next_year().unwrap();
    assert_eq!(cal.selected_date, Some(day(2020, 7, 4)));
}

#[test]
fn next_then_prev_month_restores_year_and_month() {
    for year in [MIN_YEAR, -1, 0, 1999, 2000, 2023, 2024, MAX_YEAR - 1] {
        for month in 1..=12u32 {
            let mut cal = showing(year, month, 28);
            assert_eq!(cal.next_month(), Ok(()));
            assert_eq!(cal.prev_month(), Ok(()));
            assert_eq!((cal.current_month.year(), cal.current_month.month()), (year, month));
        }
    }
}

#[test]
fn prev_then_next_month_restores_year_and_month() {
    for year in [MIN_YEAR + 1, 0, 2024, MAX_YEAR] {
        for month in 1..=12u32 {
            let mut cal = showing(year, month, 1);
            assert_eq!(cal.prev_month(), Ok(()));
            assert_eq!(cal.next_month(), Ok(()));
            assert_eq!(cal.current_month, day(year, month, 1));
        }
    }
}

#[test]
fn next_year_keeps_month_and_day() {
    let mut cal = showing(2024, 3, 15);
    assert_eq!(cal.next_year(), Ok(()));
    assert_eq!(cal.current_month, day(2025, 3, 15));
}

#[test]
fn prev_year_keeps_month_and_day() {
    let mut cal = showing(2024, 3, 15);
    assert_eq!(cal.prev_year(), Ok(()));
    assert_eq!(cal.current_month, day(2023, 3, 15));
}

#[test]
fn year_moves_from_leap_day_land_on_the_28th() {
    let mut cal = showing(2024, 2, 29);
    assert_eq!(cal.next_year(), Ok(()));
    assert_eq!(cal.current_month, day(2025, 2, 28));
    let mut cal = showing(2024, 2, 29);
    assert_eq!(cal.prev_year(), Ok(()));
    assert_eq!(cal.current_month, day(2023, 2, 28));
}

#[test]
fn year_moves_between_leap_years_keep_leap_day() {
    let mut cal = showing(2024, 2, 29);
    for _ in 0..4 {
        cal.next_year().unwrap();
    }
    // 2025 took the day down to the 28th, and it stays there.
    assert_eq!(cal.current_month, day(2028, 2, 28));
}

#[test]
fn next_then_prev_year_restores_the_year() {
    for year in [MIN_YEAR, -400, -1, 0, 1900, 2023, 2024, MAX_YEAR - 1] {
        for (month, on_day) in [(1u32, 1u32), (2, 28), (6, 30), (12, 31)] {
            let mut cal = showing(year, month, on_day);
            assert_eq!(cal.next_year(), Ok(()));
            assert_eq!(cal.current_month.year(), year + 1);
            assert_eq!(cal.prev_year(), Ok(()));
            assert_eq!(cal.current_month, day(year, month, on_day));
        }
    }
    let mut cal = showing(2024, 2, 29);
    cal.next_year().unwrap();
    cal.prev_year().unwrap();
    assert_eq!(cal.current_month.year(), 2024);
    assert_eq!(cal.current_month.month(), 2);
}

#[test]
fn moves_past_the_last_year_are_refused() {
    let mut cal = showing(MAX_YEAR, 12, 31);
    cal.selected_date = Some(day(2024, 1, 1));
    let before = cal;
    assert_eq!(cal.next_month(), Err(DateError::DateRangeError));
    assert_eq!(cal, before);
    assert_eq!(cal.next_year(), Err(DateError::DateRangeError));
    assert_eq!(cal, before);
    let mut november = showing(MAX_YEAR, 11, 30);
    assert_eq!(november.next_month(), Ok(()));
    assert_eq!(november.current_month, day(MAX_YEAR, 12, 1));
    assert_eq!(november.next_year(), Err(DateError::DateRangeError));
}

#[test]
fn moves_before_the_first_year_are_refused() {
    let mut cal = showing(MIN_YEAR, 1, 1);
    let before = cal;
    assert_eq!(cal.prev_month(), Err(DateError::DateRangeError));
    assert_eq!(cal, before);
    assert_eq!(cal.prev_year(), Err(DateError::DateRangeError));
    assert_eq!(cal, before);
    let mut february = showing(MIN_YEAR, 2, 10);
    assert_eq!(february.prev_month(), Ok(()));
    assert_eq!(february.current_month, day(MIN_YEAR, 1, 1));
    assert_eq!(february.prev_year(), Err(DateError::DateRangeError));
}

#[test]
fn is_selected_tells_the_selected_day_from_others() {
    let mut cal = showing(2024, 3, 1);
    assert!(!cal.is_selected(&day(2024, 3, 1)));
    cal.selected_date = Some(day(2024, 3, 9));
    assert!(cal.is_selected(&day(2024, 3, 9)));
    assert!(!cal.is_selected(&day(2024, 3, 10)));
    assert!(!cal.is_selected(&day(2024, 4, 9)));
    assert!(!cal.is_selected(&day(2023, 3, 9)));
}

#[test]
fn is_current_month_ignores_the_day() {
    let cal = showing(2024, 3, 15);
    assert!(cal.is_current_month(&day(2024, 3, 1)));
    assert!(cal.is_current_month(&day(2024, 3, 31)));
    assert!(!cal.is_current_month(&day(2024, 2, 29)));
    assert!(!cal.is_current_month(&day(2024, 4, 1)));
    assert!(!cal.is_current_month(&day(2023, 3, 15)));
}

#[test]
fn is_today_on_holds_of_that_day_only() {
    let cal = showing(2000, 1, 1);
    let today = day(2024, 2, 29);
    assert!(cal.is_today_on(&day(2024, 2, 29), &today));
    assert!(!cal.is_today_on(&day(2024, 2, 28), &today));
    assert!(!cal.is_today_on(&day(2024, 3, 29), &today));
    assert!(!cal.is_today_on(&day(2023, 2, 28), &today));
    assert!(!cal.is_today_on(&day(2020, 2, 29), &today));
    assert!(!cal.is_today_on(&cal.current_month, &today));
}

#[test]
fn is_today_on_does_not_depend_on_the_calendar() {
    let today = day(2024, 5, 17);
    let mut cal = showing(2024, 5, 17);
    cal.selected_date = Some(day(2024, 5, 18));
    assert!(cal.is_today_on(&day(2024, 5, 17), &today));
    assert!(!cal.is_today_on(&day(2024, 5, 18), &today));
    cal.next_year().unwrap();
    assert!(cal.is_today_on(&day(2024, 5, 17), &today));
    assert!(!cal.is_today_on(&cal.current_month, &today));
}
