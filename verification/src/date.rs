//! Calendar dates of the proleptic Gregorian calendar: the mathematical
//! model (`Ymd`) and the executable value (`Date`) that is always a real day.

use vstd::prelude::*;

verus! {

/// Earliest year a [`Date`] can hold.
pub const MIN_YEAR: i32 = -262143;

/// Latest year a [`Date`] can hold.
pub const MAX_YEAR: i32 = 262142;

/// Why a date could not be made or a calendar could not move.
#[derive(Clone, Copy, Debug, PartialEq, Eq, Structural)]
pub enum DateError {
    /// The year would leave `MIN_YEAR..=MAX_YEAR`.
    DateRangeError,
    /// The month is not one of 1 to 12, or the month has no such day.
    InvalidDateError,
}

/// Leap years: every fourth year, except centuries not divisible by 400.
pub open spec fn is_leap_year(year: int) -> bool {
    year % 4 == 0 && (year % 100 != 0 || year % 400 == 0)
}

/// Number of days of `month` (1 to 12) in `year`.
pub open spec fn days_in_month(year: int, month: int) -> int {
    if month == 2 {
        if is_leap_year(year) {
            29
        } else {
            28
        }
    } else if month == 4 || month == 6 || month == 9 || month == 11 {
        30
    } else {
        31
    }
}

/// Whether `year` lies in `MIN_YEAR..=MAX_YEAR`.
pub open spec fn year_in_range(year: int) -> bool {
    MIN_YEAR <= year <= MAX_YEAR
}

/// A year, month and day as mathematical integers: the view of a [`Date`].
pub struct Ymd {
    pub year: int,
    pub month: int,
    pub day: int,
}

impl Ymd {
    /// The month exists and has this day, in whatever year.
    pub open spec fn is_calendar_day(self) -> bool {
        1 <= self.month <= 12 && 1 <= self.day <= days_in_month(self.year, self.month)
    }

    /// A real day in a year that a [`Date`] can hold.
    pub open spec fn is_valid(self) -> bool {
        year_in_range(self.year) && self.is_calendar_day()
    }

    /// The day after this one.
    pub open spec fn next_day(self) -> Ymd {
        if self.day < days_in_month(self.year, self.month) {
            Ymd { year: self.year, month: self.month, day: self.day + 1 }
        } else if self.month < 12 {
            Ymd { year: self.year, month: self.month + 1, day: 1 }
        } else {
            Ymd { year: self.year + 1, month: 1, day: 1 }
        }
    }

    /// The day before this one.
    pub open spec fn prev_day(self) -> Ymd {
        if self.day > 1 {
            Ymd { year: self.year, month: self.month, day: self.day - 1 }
        } else if self.month > 1 {
            Ymd {
                year: self.year,
                month: self.month - 1,
                day: days_in_month(self.year, self.month - 1),
            }
        } else {
            Ymd { year: self.year - 1, month: 12, day: 31 }
        }
    }

    /// Strictly earlier than `other`.
    pub open spec fn precedes(self, other: Ymd) -> bool {
        self.year < other.year || (self.year == other.year && (self.month < other.month || (
        self.month == other.month && self.day < other.day)))
    }

    /// Same year and month as `other`, whatever the day.
    pub open spec fn same_month(self, other: Ymd) -> bool {
        self.year == other.year && self.month == other.month
    }

    /// This date with its day replaced by 1.
    pub open spec fn first_of_month(self) -> Ymd {
        Ymd { year: self.year, month: self.month, day: 1 }
    }

    /// The first day of the month after this one.
    pub open spec fn next_month_start(self) -> Ymd {
        if self.month == 12 {
            Ymd { year: self.year + 1, month: 1, day: 1 }
        } else {
            Ymd { year: self.year, month: self.month + 1, day: 1 }
        }
    }

    /// The first day of the month before this one.
    pub open spec fn prev_month_start(self) -> Ymd {
        if self.month == 1 {
            Ymd { year: self.year - 1, month: 12, day: 1 }
        } else {
            Ymd { year: self.year, month: self.month - 1, day: 1 }
        }
    }

    /// The same month and day in `year`; where that month is shorter there,
    /// its last day.
    pub open spec fn in_year(self, year: int) -> Ymd {
        Ymd {
            year,
            month: self.month,
            day: if self.day <= days_in_month(year, self.month) {
                self.day
            } else {
                days_in_month(year, self.month)
            },
        }
    }
}

/// A day of the proleptic Gregorian calendar between the first day of
/// `MIN_YEAR` and the last day of `MAX_YEAR`.
#[derive(Clone, Copy, Debug, PartialEq, Eq, Structural)]
pub struct Date {
    pub(crate) year: i32,
    pub(crate) month: u32,
    pub(crate) day: u32,
}

impl View for Date {
    type V = Ymd;

    open(crate) spec fn view(&self) -> Ymd {
        Ymd { year: self.year as int, month: self.month as int, day: self.day as int }
    }
}

/// Whether `year` is a leap year.
fn leap_year(year: i32) -> (leap: bool)
    ensures
        leap == is_leap_year(year as int),
{
    year % 4 == 0 && (year % 100 != 0 || year % 400 == 0)
}

/// The number of days of `month` in `year`.
fn month_length(year: i32, month: u32) -> (n: u32)
    requires
        1 <= month <= 12,
    ensures
        n == days_in_month(year as int, month as int),
{
    if month == 2 {
        if leap_year(year) {
            29
        } else {
            28
        }
    } else if month == 4 || month == 6 || month == 9 || month == 11 {
        30
    } else {
        31
    }
}

impl Date {
    /// Every `Date` is a real day in range.
    #[verifier::type_invariant]
    pub open spec fn wf(self) -> bool {
        self@.is_valid()
    }

    /// The date with this year, month and day, if there is one.
    pub fn new(year: i32, month: u32, day: u32) -> (r: Result<Date, DateError>)
        ensures
            match r {
                Ok(d) => d.wf() && d@ == (Ymd {
                    year: year as int,
                    month: month as int,
                    day: day as int,
                }),
                Err(DateError::DateRangeError) => !year_in_range(year as int),
                Err(DateError::InvalidDateError) => year_in_range(year as int) && !(Ymd {
                    year: year as int,
                    month: month as int,
                    day: day as int,
                }).is_calendar_day(),
            },
    {
        if year < MIN_YEAR || year > MAX_YEAR {
            Err(DateError::DateRangeError)
        } else if month < 1 || month > 12 {
            Err(DateError::InvalidDateError)
        } else if day < 1 || day > month_length(year, month) {
            Err(DateError::InvalidDateError)
        } else {
            Ok(Date { year, month, day })
        }
    }

    /// The year, between `MIN_YEAR` and `MAX_YEAR`; 0 is the year before year 1.
    pub fn year(&self) -> (y: i32)
        ensures
            y == self@.year,
            year_in_range(y as int),
    {
        proof {
            use_type_invariant(self);
        }
        self.year
    }

    /// The month, 1 for January to 12 for December.
    pub fn month(&self) -> (m: u32)
        ensures
            m == self@.month,
            1 <= m <= 12,
    {
        proof {
            use_type_invariant(self);
        }
        self.month
    }

    /// The day of the month, from 1.
    pub fn day(&self) -> (d: u32)
        ensures
            d == self@.day,
            1 <= d <= days_in_month(self@.year, self@.month),
    {
        proof {
            use_type_invariant(self);
        }
        self.day
    }

    /// Whether the two are the same day.
    pub fn is_same_day(&self, other: &Date) -> (same: bool)
        ensures
            same == (self@ == other@),
    {
        self.year == other.year && self.month == other.month && self.day == other.day
    }

    /// Whether this day comes strictly before `other`.
    pub fn precedes(&self, other: &Date) -> (earlier: bool)
        ensures
            earlier == self@.precedes(other@),
    {
        self.year < other.year || (self.year == other.year && (self.month < other.month || (
        self.month == other.month && self.day < other.day)))
    }
}

} // verus!
