//! Calendar dates and their day of the year.
use vstd::prelude::*;

verus! {

/// The first year that a `CalendarDate` may hold.
pub const FIRST_YEAR: i32 = -262142;

/// The last year that a `CalendarDate` may hold.
pub const LAST_YEAR: i32 = 262141;

/// Whether `year` is a leap year of the proleptic Gregorian calendar.
pub open spec fn is_leap_year(year: int) -> bool {
    (year % 4 == 0 && year % 100 != 0) || year % 400 == 0
}

/// The number of days of `month` (1 to 12) in `year`.
pub open spec fn days_in_month(year: int, month: int) -> int {
    if month == 2 {
        if is_leap_year(year) { 29 } else { 28 }
    } else if month == 4 || month == 6 || month == 9 || month == 11 {
        30
    } else {
        31
    }
}

/// The number of days of `year` that come before the first of `month`.
pub open spec fn days_before_month(year: int, month: int) -> int
    decreases month,
{
    if month <= 1 {
        0
    } else {
        days_before_month(year, month - 1) + days_in_month(year, month - 1)
    }
}

/// Whether `year`, `month`, `day` names a day of the proleptic Gregorian calendar.
pub open spec fn is_calendar_day(year: int, month: int, day: int) -> bool {
    1 <= month <= 12 && 1 <= day <= days_in_month(year, month)
}

/// The day of the year, counted from 1 on January 1st.
pub open spec fn day_of_year(year: int, month: int, day: int) -> int {
    days_before_month(year, month) + day
}

/// The number of days in `year`.
pub open spec fn days_in_year(year: int) -> int {
    day_of_year(year, 12, 31)
}

/// A day of the year lies between 1 and the length of its year, which is
/// 365 or 366.
pub proof fn lemma_day_of_year_bounds(year: int, month: int, day: int)
    requires
        is_calendar_day(year, month, day),
    ensures
        1 <= day_of_year(year, month, day) <= days_in_year(year),
        days_in_year(year) == (if is_leap_year(year) { 366int } else { 365int }),
{
    reveal_with_fuel(days_before_month, 12);
}

/// chrono's `NaiveDate` covers the years from -262143 to 262142.
pub open spec fn in_chrono_range(year: int) -> bool {
    -262143 <= year <= 262142
}

/// Relies on chrono's `NaiveDate::from_ymd_opt`, which gives `None` for a day
/// that does not exist or a year out of its range, and on `Datelike::ordinal`,
/// the day of the year counted from 1.
#[verifier::external_body]
pub(crate) fn chrono_ordinal(year: i32, month: u32, day: u32) -> (r: Option<u32>)
    ensures
        r == (if in_chrono_range(year as int) && is_calendar_day(
            year as int,
            month as int,
            day as int,
        ) {
            Some(day_of_year(year as int, month as int, day as int) as u32)
        } else {
            None::<u32>
        }),
{
    chrono::NaiveDate::from_ymd_opt(year, month, day).map(|d| chrono::Datelike::ordinal(&d))
}

/// A day of the proleptic Gregorian calendar, with a year one inside chrono's
/// range at each end, so that the years on either side are dates as well.
#[derive(Clone, Copy, Debug, PartialEq, Eq)]
pub struct CalendarDate {
    year: i32,
    month: u32,
    day: u32,
}

impl CalendarDate {
    pub closed spec fn spec_year(&self) -> int {
        self.year as int
    }

    pub closed spec fn spec_month(&self) -> int {
        self.month as int
    }

    pub closed spec fn spec_day(&self) -> int {
        self.day as int
    }

    /// Whether the date is one that `new` accepts.
    pub open spec fn wf(&self) -> bool {
        FIRST_YEAR <= self.spec_year() <= LAST_YEAR && is_calendar_day(
            self.spec_year(),
            self.spec_month(),
            self.spec_day(),
        )
    }

    /// The day of the year of this date.
    pub open spec fn ordinal(&self) -> int {
        day_of_year(self.spec_year(), self.spec_month(), self.spec_day())
    }

    /// The date `year`-`month`-`day`, where that day exists and the year lies
    /// between `FIRST_YEAR` and `LAST_YEAR`.
    pub fn new(year: i32, month: u32, day: u32) -> (r: Option<CalendarDate>)
        ensures
            r.is_some() <==> (FIRST_YEAR <= year <= LAST_YEAR && is_calendar_day(
                year as int,
                month as int,
                day as int,
            )),
            r matches Some(d) ==> d.wf() && d.spec_year() == year && d.spec_month() == month
                && d.spec_day() == day,
    {
        if year < FIRST_YEAR || year > LAST_YEAR {
            return None;
        }
        match chrono_ordinal(year, month, day) {
            Some(_) => Some(CalendarDate { year, month, day }),
            None => None,
        }
    }

    pub fn year(&self) -> (r: i32)
        ensures
            r == self.spec_year(),
    {
        self.year
    }

    pub fn month(&self) -> (r: u32)
        ensures
            r == self.spec_month(),
    {
        self.month
    }

    pub fn day(&self) -> (r: u32)
        ensures
            r == self.spec_day(),
    {
        self.day
    }
}

} // verus!
