use crate::common::error::CalendarError;
use vstd::prelude::*;

verus! {

/// The largest year magnitude that a `CommonDate` made by `try_new` may hold:
/// the supported range of day counts divided by the mean year length.
pub const MAX_YEARS: i32 = 47035918;

/// A numeric year, month and day, not tied to any one calendar system.
#[derive(Debug, Clone, Copy, PartialEq, Eq, Structural)]
pub struct CommonDate {
    pub year: i32,
    pub month: u8,
    pub day: u8,
}

/// Lexicographic order on (year, month, day).
pub open spec fn common_date_lt(a: CommonDate, b: CommonDate) -> bool {
    a.year < b.year || (a.year == b.year && (a.month < b.month || (a.month == b.month
        && a.day < b.day)))
}

impl CommonDate {
    /// Builds a `CommonDate`, refusing years beyond the supported range.
    pub fn try_new(year: i32, month: u8, day: u8) -> (r: Result<CommonDate, CalendarError>)
        ensures
            -MAX_YEARS <= year <= MAX_YEARS ==> r == Ok::<CommonDate, CalendarError>(
                CommonDate { year, month, day },
            ),
            !(-MAX_YEARS <= year <= MAX_YEARS) ==> r == Err::<CommonDate, CalendarError>(
                CalendarError::OutOfBounds,
            ),
    {
        if year > MAX_YEARS || year < -MAX_YEARS {
            Err(CalendarError::OutOfBounds)
        } else {
            Ok(CommonDate { year, month, day })
        }
    }

    /// Builds a `CommonDate` from its three parts.
    pub fn new(year: i32, month: u8, day: u8) -> (r: CommonDate)
        ensures
            r == (CommonDate { year, month, day }),
    {
        CommonDate { year, month, day }
    }

    pub fn get_year(self) -> (r: i32)
        ensures
            r == self.year,
    {
        self.year
    }

    pub fn get_month(self) -> (r: u8)
        ensures
            r == self.month,
    {
        self.month
    }

    pub fn get_day(self) -> (r: u8)
        ensures
            r == self.day,
    {
        self.day
    }

    /// Strict lexicographic comparison of two dates.
    pub fn is_before(self, other: CommonDate) -> (r: bool)
        ensures
            r == common_date_lt(self, other),
    {
        self.year < other.year || (self.year == other.year && (self.month < other.month || (
        self.month == other.month && self.day < other.day)))
    }
}

/// A numeric year and day of year, not tied to any one calendar system.
#[derive(Debug, Clone, Copy, PartialEq, Eq, Structural)]
pub struct OrdinalDate {
    pub year: i32,
    pub day_of_year: u16,
}

/// Lexicographic order on (year, day of year).
pub open spec fn ordinal_lt(a: OrdinalDate, b: OrdinalDate) -> bool {
    a.year < b.year || (a.year == b.year && a.day_of_year < b.day_of_year)
}

impl OrdinalDate {
    /// Strict lexicographic comparison of two ordinal dates.
    pub fn is_before(self, other: OrdinalDate) -> (r: bool)
        ensures
            r == ordinal_lt(self, other),
    {
        self.year < other.year || (self.year == other.year && self.day_of_year
            < other.day_of_year)
    }
}

} // verus!
