use crate::common::date::CommonDate;
use crate::common::date::OrdinalDate;
use crate::common::error::CalendarError;
use crate::day_count::fixed::day_count_computable;
use crate::day_count::fixed::ToFixed;
use crate::day_cycle::prelude::OnOrBefore;
use crate::day_cycle::week::Weekday;
use vstd::prelude::*;

verus! {

/// Calendar systems with leap years.
pub trait HasLeapYears {
    /// Whether `year` is a leap year, as a mathematical statement.
    spec fn leap_spec(year: int) -> bool;

    /// `true` if the given year is a leap year.
    fn is_leap(year: i32) -> (r: bool)
        ensures
            r == Self::leap_spec(year as int),
    ;
}

/// Calendar systems in which a date is a year, a month and a day.
pub trait ToFromCommonDate: Sized {
    /// The year, month and day that a value of the calendar stands for.
    spec fn common_view(self) -> CommonDate;

    /// Why a year, month and day is not a date of the calendar, if it is not.
    spec fn ymd_error(d: CommonDate) -> Option<CalendarError>;

    /// The first day of a year, as a year, month and day.
    spec fn year_start_spec(year: int) -> CommonDate;

    /// The last day of a year, as a year, month and day.
    spec fn year_end_spec(year: int) -> CommonDate;

    /// Converts a calendar date to a year, month and day.
    fn to_common_date(self) -> (r: CommonDate)
        ensures
            r == self.common_view(),
            Self::ymd_error(r) is None,
    ;

    /// Converts a valid year, month and day into a calendar date without checking it.
    fn from_common_date_unchecked(d: CommonDate) -> (r: Self)
        requires
            Self::ymd_error(d) is None,
        ensures
            r.common_view() == d,
    ;

    /// Returns the error that makes the year, month or day invalid, if any.
    fn valid_ymd(d: CommonDate) -> (r: Result<(), CalendarError>)
        ensures
            Self::ymd_error(d) is None ==> r is Ok,
            Self::ymd_error(d) matches Some(e) ==> r == Err::<(), CalendarError>(e),
    ;

    /// The first day of a year, as a year, month and day.
    fn year_start_date(year: i32) -> (r: CommonDate)
        ensures
            r == Self::year_start_spec(year as int),
    ;

    /// The last day of a year, as a year, month and day.
    fn year_end_date(year: i32) -> (r: CommonDate)
        ensures
            r == Self::year_end_spec(year as int),
    ;

    /// Attempts to build a date of the calendar from a year, month and day.
    fn try_from_common_date(d: CommonDate) -> (r: Result<Self, CalendarError>)
        ensures
            Self::ymd_error(d) is None ==> (r matches Ok(x) && x.common_view() == d),
            Self::ymd_error(d) matches Some(e) ==> r == Err::<Self, CalendarError>(e),
    {
        match Self::valid_ymd(d) {
            Err(e) => Err(e),
            Ok(_) => Ok(Self::from_common_date_unchecked(d)),
        }
    }

    /// Attempts to build the first day of a year.
    fn try_year_start(year: i32) -> (r: Result<Self, CalendarError>)
        ensures
            Self::ymd_error(Self::year_start_spec(year as int)) is None ==> (r matches Ok(x)
                && x.common_view() == Self::year_start_spec(year as int)),
            Self::ymd_error(Self::year_start_spec(year as int)) matches Some(e) ==> r == Err::<
                Self,
                CalendarError,
            >(e),
    {
        Self::try_from_common_date(Self::year_start_date(year))
    }

    /// Attempts to build the last day of a year.
    fn try_year_end(year: i32) -> (r: Result<Self, CalendarError>)
        ensures
            Self::ymd_error(Self::year_end_spec(year as int)) is None ==> (r matches Ok(x)
                && x.common_view() == Self::year_end_spec(year as int)),
            Self::ymd_error(Self::year_end_spec(year as int)) matches Some(e) ==> r == Err::<
                Self,
                CalendarError,
            >(e),
    {
        Self::try_from_common_date(Self::year_end_date(year))
    }

    /// The day of the month.
    fn day(self) -> (r: u8)
        ensures
            r == self.common_view().day,
    {
        self.to_common_date().day
    }

    /// The year.
    fn year(self) -> (r: i32)
        ensures
            r == self.common_view().year,
    {
        self.to_common_date().year
    }
}

/// Calendar systems in which a date is a year and a day of the year.
pub trait ToFromOrdinalDate: ToFromCommonDate {
    /// Why a year and day of year is not a day of the calendar, if it is not.
    spec fn ordinal_error(ord: OrdinalDate) -> Option<CalendarError>;

    /// The year and day of year of a year, month and day.
    spec fn ordinal_of(d: CommonDate) -> OrdinalDate;

    /// The day count of a year and day of year.
    spec fn fixed_of_ordinal(ord: OrdinalDate) -> int;

    /// Returns the error that makes the year and day of year invalid, if any.
    fn valid_ordinal(ord: OrdinalDate) -> (r: Result<(), CalendarError>)
        ensures
            Self::ordinal_error(ord) is None ==> r is Ok,
            Self::ordinal_error(ord) matches Some(e) ==> r == Err::<(), CalendarError>(e),
    ;

    /// The year and day of year of a day count.
    fn ordinal_from_fixed(date: i64) -> (r: OrdinalDate)
        requires
            crate::day_count::fixed::fixed_in_bounds(date as int),
        ensures
            Self::ordinal_error(r) is None,
            Self::fixed_of_ordinal(r) == date,
    ;

    /// The year and day of year of a date.
    fn to_ordinal(self) -> (r: OrdinalDate)
        ensures
            r == Self::ordinal_of(self.common_view()),
    ;

    /// Builds the date of a valid year and day of year.
    fn from_ordinal_unchecked(ord: OrdinalDate) -> (r: Self)
        requires
            Self::ordinal_error(ord) is None,
        ensures
            Self::ordinal_of(r.common_view()) == ord,
    ;

    /// Attempts to build the date of a year and day of year.
    fn try_from_ordinal(ord: OrdinalDate) -> (r: Result<Self, CalendarError>)
        ensures
            Self::ordinal_error(ord) is None ==> (r matches Ok(x) && Self::ordinal_of(
                x.common_view(),
            ) == ord),
            Self::ordinal_error(ord) matches Some(e) ==> r == Err::<Self, CalendarError>(e),
    {
        match Self::valid_ordinal(ord) {
            Err(e) => Err(e),
            Ok(_) => Ok(Self::from_ordinal_unchecked(ord)),
        }
    }
}

/// Calendar systems that can tell whether a year, month and day is one of their dates.
pub trait ValidCommonDate: ToFromCommonDate {
    /// Whether the year, month and day is a date of the calendar.
    fn is_valid(date: CommonDate) -> (r: bool)
        ensures
            r == (Self::ymd_error(date) is None),
    {
        Self::valid_ymd(date).is_ok()
    }
}

impl<T: ToFromCommonDate> ValidCommonDate for T {
}

/// Calendar systems in which every date has a month.
pub trait GuaranteedMonth<T>: ToFromCommonDate {
    /// The number of a month, from 1.
    spec fn month_number(m: T) -> int;

    /// The month of a date.
    fn month(self) -> (r: T)
        ensures
            Self::month_number(r) == self.common_view().month,
    ;
}

/// Calendar systems in which some dates (complementary days) belong to no month.
pub trait TryMonth<T>: ToFromCommonDate {
    /// The number of a month, from 1.
    spec fn month_number(m: T) -> int;

    /// Whether a date belongs to a month.
    spec fn in_month(self) -> bool;

    /// The month of a date, if it belongs to one.
    fn try_month(self) -> (r: Option<T>)
        ensures
            self.in_month() ==> (r matches Some(m) && Self::month_number(m)
                == self.common_view().month),
            !self.in_month() ==> r is None,
    ;
}

/// Calendar systems in which a year can be divided into quarters.
pub trait Quarter: Sized {
    /// The quarter of a date.
    spec fn quarter_spec(self) -> int;

    /// The quarter of a date, from 1 to 4.
    fn quarter(self) -> (r: u8)
        ensures
            r == self.quarter_spec(),
            1 <= r <= 4,
    ;
}

} // verus!

verus! {

/// Calendar systems with days that belong to no month or week: complementary days.
pub trait HasIntercalaryDays<T>: Sized {
    /// The complementary day that a date is, if it is one.
    spec fn complementary_spec(self) -> Option<T>;

    /// The number of complementary days in a year.
    spec fn complementary_count_spec(year: int) -> int;

    /// The complementary day that a date is, if it is one.
    fn complementary(self) -> (r: Option<T>)
        ensures
            r == self.complementary_spec(),
    ;

    /// The number of complementary days in a year.
    fn complementary_count(year: i32) -> (r: u8)
        ensures
            r == Self::complementary_count_spec(year as int),
    ;
}

/// Perennial calendar systems: every month starts on the same day of the week.
pub trait Perennial<T>: ToFromCommonDate + Copy {
    /// The day of the week of a date, if it has one.
    spec fn weekday_spec(self) -> Option<T>;

    spec fn days_per_week_spec() -> int;

    spec fn weeks_per_month_spec() -> int;

    /// The day of the week of a date; complementary days have none.
    fn weekday(self) -> (r: Option<T>)
        ensures
            r == self.weekday_spec(),
            r is Some ==> 1 <= self.common_view().month && 1 <= self.common_view().day,
    ;

    /// The number of days in a week.
    fn days_per_week() -> (r: u8)
        ensures
            r == Self::days_per_week_spec(),
            r > 0,
    ;

    /// The number of weeks in a month.
    fn weeks_per_month() -> (r: u8)
        ensures
            r == Self::weeks_per_month_spec(),
    ;

    /// The week of the year of a date; complementary days are in no week.
    fn try_week_of_year(self) -> (r: Option<u8>)
        ensures
            self.weekday_spec() is None ==> r is None,
            self.weekday_spec() is Some ==> r == Some(
                ((((self.common_view().month - 1) * Self::days_per_week_spec()
                    * Self::weeks_per_month_spec()) + self.common_view().day - 1)
                    / Self::days_per_week_spec() + 1) as u8,
            ),
    {
        match self.weekday() {
            Some(_) => {
                let c = self.to_common_date();
                let d = c.day as u64;
                let m = c.month as u64;
                let dpw = Self::days_per_week() as u64;
                let wpm = Self::weeks_per_month() as u64;
                assert(dpw * wpm < 65536 && (m - 1) * (dpw * wpm) < 65536 * 256) by (nonlinear_arith)
                    requires
                        dpw < 256,
                        wpm < 256,
                        1 <= m < 256,
                ;
                let dpm = dpw * wpm;
                assert((m - 1) * dpm == (m - 1) * Self::days_per_week_spec()
                    * Self::weeks_per_month_spec()) by (nonlinear_arith)
                    requires
                        dpm == dpw * wpm,
                        dpw == Self::days_per_week_spec(),
                        wpm == Self::weeks_per_month_spec(),
                ;
                Some(#[verifier::truncate] (((((m - 1) * dpm) + d - 1) / dpw + 1) as u8))
            },
            None => None,
        }
    }
}


/// The `n`-th day of the week `k` after a day (counting back from it when `n` is negative).
pub(crate) fn nth_kday_of(date: i64, n: i16, k: Weekday) -> (r: i64)
    requires
        n != 0,
        day_count_computable(date - 1),
        day_count_computable(date + 7),
    ensures
        r == (if n > 0 {
            k.on_or_before_spec(date - 1)
        } else {
            k.on_or_before_spec(date + 7)
        }) + 7 * n,
{
    if n > 0 {
        k.before(date) + (7 * n as i64)
    } else {
        k.after(date) + (7 * n as i64)
    }
}

/// Calendar systems whose years are counted in weeks from their first day.
pub trait CommonWeekOfYear: ToFromCommonDate + ToFixed + Copy {
    /// The day count of a valid year, month and day.
    spec fn fixed_of_date(d: CommonDate) -> int;

    /// The day count of a date is that of its year, month and day.
    proof fn lemma_fixed_of_date(x: Self)
        ensures
            x.fixed_spec() == Self::fixed_of_date(x.common_view()),
    ;

    /// The week of the year of a date: weeks counted from the first day of its year.
    fn week_of_year(self) -> (r: u8)
        requires
            Self::ymd_error(Self::year_start_spec(self.common_view().year as int)) is None,
        ensures
            r == (((Self::fixed_of_date(self.common_view()) - Self::fixed_of_date(
                Self::year_start_spec(self.common_view().year as int),
            )) / 7 + 1) as u8),
    {
        let today = self.to_fixed();
        let year = self.year();
        let start_date = Self::try_year_start(year);
        assert(start_date is Ok);
        let start_value = start_date.unwrap();
        assert(start_value.common_view() == Self::year_start_spec(year as int));
        let start = start_value.to_fixed();
        proof {
            Self::lemma_fixed_of_date(self);
            Self::lemma_fixed_of_date(start_value);
        }
        let diff = today as i128 - start as i128;
        proof {
            crate::common::math::lemma_div_bounded_by_dividend(diff as int, 7);
        }
        let q = diff.checked_div_euclid(7).unwrap();
        #[verifier::truncate]
        ((q + 1) as u8)
    }

    /// The `n`-th day of the week `k` after the date, or before it when `n` is negative.
    fn nth_kday(self, n: i16, k: Weekday) -> (r: i64)
        requires
            n != 0,
            day_count_computable(self.fixed_spec() - 1),
            day_count_computable(self.fixed_spec() + 7),
        ensures
            r == (if n > 0 {
                k.on_or_before_spec(self.fixed_spec() - 1)
            } else {
                k.on_or_before_spec(self.fixed_spec() + 7)
            }) + 7 * n,
    {
        nth_kday_of(self.to_fixed(), n, k)
    }
}

/// Whether a month of a twelve-month year falls in a quarter: January to March in the first,
/// April to June in the second, July to September in the third and October to December in
/// the fourth.
pub open spec fn month_in_quarter(m: int, q: int) -> bool {
    &&& 1 <= m <= 3 ==> q == 1
    &&& 4 <= m <= 6 ==> q == 2
    &&& 7 <= m <= 9 ==> q == 3
    &&& 10 <= m <= 12 ==> q == 4
}

} // verus!
