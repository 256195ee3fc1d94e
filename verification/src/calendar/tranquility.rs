use crate::calendar::arith::lemma_div_in_range;
use crate::calendar::arith::lemma_div_mod_parts;
use crate::calendar::gregorian::gregorian_fixed;
use crate::calendar::gregorian::gregorian_leap;
use crate::calendar::gregorian::gregorian_prior_elapsed;
use crate::calendar::gregorian::is_leap_wide;
use crate::calendar::gregorian::lemma_gregorian_prior_step;
use crate::calendar::gregorian::lemma_gregorian_year_bounds;
use crate::calendar::gregorian::prior_elapsed_days_wide;
use crate::calendar::gregorian::solar_year_length;
use crate::calendar::gregorian::Gregorian;
use crate::calendar::prelude::HasIntercalaryDays;
use crate::calendar::prelude::HasLeapYears;
use crate::calendar::prelude::Perennial;
use crate::calendar::prelude::Quarter;
use crate::calendar::prelude::ToFromCommonDate;
use crate::calendar::prelude::ToFromOrdinalDate;
use crate::common::date::CommonDate;
use crate::common::date::OrdinalDate;
use crate::common::error::CalendarError;
use crate::common::math::adjusted_remainder;
use crate::common::math::div_floor;
use crate::common::math::modulus;
use crate::day_count::fixed::fixed_in_bounds;
use crate::day_count::fixed::Epoch;
use crate::day_count::fixed::FromFixed;
use crate::day_count::fixed::ToFixed;
use crate::day_cycle::week::weekday_of_number;
use crate::day_cycle::week::weekday_number;
use crate::day_cycle::week::Weekday;
use std::cmp::Ordering;
use crate::day_count::fixed::CalculatedBounds;
use crate::calendar::prelude::TryMonth;
use vstd::prelude::*;
use vstd::std_specs::cmp::PartialOrdSpecImpl;

verus! {

/// The Gregorian year of Moon Landing Day, the epoch of the Tranquility calendar.
pub const TRANQUILITY_EPOCH_YEAR: i32 = 1969;

/// The Gregorian month of Moon Landing Day.
pub const TRANQUILITY_EPOCH_MONTH: u8 = 7;

/// The Gregorian day of month of Moon Landing Day.
pub const TRANQUILITY_EPOCH_DAY: u8 = 20;

/// The month number that complementary days carry.
pub const NON_MONTH: u8 = 0;

/// The day of year of Aldrin Day: the day after the 27th of Hippocrates.
pub const AFTER_H27: i64 = 224;

/// A month of the Tranquility calendar, named after a scientist.
#[derive(Debug, Clone, Copy, PartialEq, Eq, PartialOrd, Ord, Hash, Structural)]
pub enum TranquilityMonth {
    Archimedes,
    Brahe,
    Copernicus,
    Darwin,
    Einstein,
    Faraday,
    Galileo,
    Hippocrates,
    Imhotep,
    Jung,
    Kepler,
    Lavoisier,
    Mendel,
}

/// The number of each value of `TranquilityMonth`.
pub open spec fn tranquility_month_number(m: TranquilityMonth) -> int {
    match m {
        TranquilityMonth::Archimedes => 1,
        TranquilityMonth::Brahe => 2,
        TranquilityMonth::Copernicus => 3,
        TranquilityMonth::Darwin => 4,
        TranquilityMonth::Einstein => 5,
        TranquilityMonth::Faraday => 6,
        TranquilityMonth::Galileo => 7,
        TranquilityMonth::Hippocrates => 8,
        TranquilityMonth::Imhotep => 9,
        TranquilityMonth::Jung => 10,
        TranquilityMonth::Kepler => 11,
        TranquilityMonth::Lavoisier => 12,
        TranquilityMonth::Mendel => 13,
    }
}

impl TranquilityMonth {
    /// The number of the value.
    pub fn to_u8(self) -> (r: u8)
        ensures
            r == tranquility_month_number(self),
    {
        match self {
            TranquilityMonth::Archimedes => 1,
            TranquilityMonth::Brahe => 2,
            TranquilityMonth::Copernicus => 3,
            TranquilityMonth::Darwin => 4,
            TranquilityMonth::Einstein => 5,
            TranquilityMonth::Faraday => 6,
            TranquilityMonth::Galileo => 7,
            TranquilityMonth::Hippocrates => 8,
            TranquilityMonth::Imhotep => 9,
            TranquilityMonth::Jung => 10,
            TranquilityMonth::Kepler => 11,
            TranquilityMonth::Lavoisier => 12,
            TranquilityMonth::Mendel => 13,
        }
    }

    /// The value with the given number, if there is one.
    pub fn from_u8(n: u8) -> (r: Option<TranquilityMonth>)
        ensures
            1 <= n <= 13 ==> (r matches Some(m) && tranquility_month_number(m) == n),
            !(1 <= n <= 13) ==> r is None,
    {
        match n {
            1 => Some(TranquilityMonth::Archimedes),
            2 => Some(TranquilityMonth::Brahe),
            3 => Some(TranquilityMonth::Copernicus),
            4 => Some(TranquilityMonth::Darwin),
            5 => Some(TranquilityMonth::Einstein),
            6 => Some(TranquilityMonth::Faraday),
            7 => Some(TranquilityMonth::Galileo),
            8 => Some(TranquilityMonth::Hippocrates),
            9 => Some(TranquilityMonth::Imhotep),
            10 => Some(TranquilityMonth::Jung),
            11 => Some(TranquilityMonth::Kepler),
            12 => Some(TranquilityMonth::Lavoisier),
            13 => Some(TranquilityMonth::Mendel),
            _ => None,
        }
    }
}

/// A day of the Tranquility calendar that belongs to no month or week.
#[derive(Debug, Clone, Copy, PartialEq, Eq, PartialOrd, Ord, Hash, Structural)]
pub enum TranquilityComplementaryDay {
    MoonLandingDay,
    ArmstrongDay,
    AldrinDay,
}

/// The number of each value of `TranquilityComplementaryDay`.
pub open spec fn tranquility_complementary_day_number(m: TranquilityComplementaryDay) -> int {
    match m {
        TranquilityComplementaryDay::MoonLandingDay => 0,
        TranquilityComplementaryDay::ArmstrongDay => 1,
        TranquilityComplementaryDay::AldrinDay => 2,
    }
}

impl TranquilityComplementaryDay {
    /// The number of the value.
    pub fn to_u8(self) -> (r: u8)
        ensures
            r == tranquility_complementary_day_number(self),
    {
        match self {
            TranquilityComplementaryDay::MoonLandingDay => 0,
            TranquilityComplementaryDay::ArmstrongDay => 1,
            TranquilityComplementaryDay::AldrinDay => 2,
        }
    }

    /// The value with the given number, if there is one.
    pub fn from_u8(n: u8) -> (r: Option<TranquilityComplementaryDay>)
        ensures
            0 <= n <= 2 ==> (r matches Some(m) && tranquility_complementary_day_number(m) == n),
            !(0 <= n <= 2) ==> r is None,
    {
        match n {
            0 => Some(TranquilityComplementaryDay::MoonLandingDay),
            1 => Some(TranquilityComplementaryDay::ArmstrongDay),
            2 => Some(TranquilityComplementaryDay::AldrinDay),
            _ => None,
        }
    }
}


/// The day count of Moon Landing Day, July 20, 1969 in the Gregorian calendar.
pub open spec fn tq_epoch() -> int {
    718998
}

/// Tranquility leap years are those whose Aldrin Day is a Gregorian February 29.
pub open spec fn tq_leap(year: int) -> bool {
    if year > 0 {
        gregorian_leap(year + 1969)
    } else if year < 0 {
        gregorian_leap(year + 1970)
    } else {
        false
    }
}

/// The number of complementary days of a year: Armstrong Day, and Aldrin Day in leap years;
/// 1 Before Tranquility has no Armstrong Day.
pub open spec fn tq_complementary_count(year: int) -> int {
    if tq_leap(year) {
        2
    } else if year == -1 {
        0
    } else {
        1
    }
}

/// The number of days of a year; year 0 stands for Moon Landing Day alone.
pub open spec fn tq_year_length(year: int) -> int {
    if year == 0 {
        1
    } else {
        364 + tq_complementary_count(year)
    }
}

/// The number of days before a Tranquility year, counted from the epoch of the day count.
pub open spec fn tq_prior(year: int) -> int {
    if year == 0 {
        tq_epoch() - 1
    } else {
        let y = if year < 0 {
            year + 1
        } else {
            year
        };
        gregorian_july_20(y - 1 + 1969)
    }
}

/// The day count of July 20 of a Gregorian year.
pub open spec fn gregorian_july_20(year: int) -> int {
    gregorian_prior_elapsed(year) + 201 + (if gregorian_leap(year) {
        1int
    } else {
        0int
    })
}

/// Why a year, month and day is not a Tranquility date. Complementary days carry month 0:
/// day 0 is Moon Landing Day (year 0), day 1 Armstrong Day and day 2 Aldrin Day.
pub open spec fn tq_error(d: CommonDate) -> Option<CalendarError> {
    if d.month > 13 {
        Some(CalendarError::InvalidMonth)
    } else if d.month == 0 {
        if d.day == 0 && d.year == 0 {
            None
        } else if d.day == 1 && d.year != 0 && d.year != -1 {
            None
        } else if d.day == 2 && d.year != 0 && tq_leap(d.year as int) {
            None
        } else {
            Some(CalendarError::InvalidDay)
        }
    } else if d.day < 1 || d.day > 28 {
        Some(CalendarError::InvalidDay)
    } else if d.year == 0 {
        Some(CalendarError::InvalidYear)
    } else {
        None
    }
}

/// The day of year of a date: Aldrin Day comes after the 27th of Hippocrates, and
/// Armstrong Day ends the year.
pub open spec fn tq_day_of_year(d: CommonDate) -> int {
    if d.month == 0 {
        if d.day == 0 {
            1
        } else if d.day == 1 {
            364 + tq_complementary_count(d.year as int)
        } else {
            AFTER_H27 as int
        }
    } else {
        let approx = (d.month - 1) * 28 + d.day;
        approx + (if approx >= AFTER_H27 && tq_complementary_count(d.year as int) >= 2 {
            1int
        } else {
            0int
        })
    }
}

/// Whether a year and day of year is a day of the calendar.
pub open spec fn tq_ordinal_valid(ord: OrdinalDate) -> bool {
    1 <= ord.day_of_year <= tq_year_length(ord.year as int)
}

/// The day count of a Tranquility date.
pub open spec fn tq_fixed(d: CommonDate) -> int {
    tq_prior(d.year as int) + tq_day_of_year(d)
}

/// The Tranquility date of a day count.
pub open spec fn tq_from_fixed(date: int) -> CommonDate {
    choose|c: CommonDate| tq_error(c) is None && #[trigger] tq_fixed(c) == date
}

/// Each year adds its length to the count of prior days, year 0 included.
pub proof fn lemma_tq_prior_step(year: int)
    ensures
        tq_prior(year + 1) == tq_prior(year) + tq_year_length(year),
{
    if year >= 1 {
        lemma_gregorian_prior_step(year + 1968);
    } else if year <= -2 {
        lemma_gregorian_prior_step(year + 1969);
    }
}

/// Later years start later.
pub proof fn lemma_tq_prior_monotone(a: int, b: int)
    requires
        a < b,
    ensures
        tq_prior(a) + tq_year_length(a) <= tq_prior(b),
    decreases b - a,
{
    lemma_tq_prior_step(a);
    if a + 1 < b {
        lemma_tq_prior_monotone(a + 1, b);
        lemma_tq_prior_step(a + 1);
    }
}

/// A valid date has a day of year within its year; its day of year is a valid ordinal.
proof fn lemma_tq_day_of_year_bounds(d: CommonDate)
    requires
        tq_error(d) is None,
    ensures
        tq_ordinal_valid(OrdinalDate { year: d.year, day_of_year: tq_day_of_year(d) as u16 }),
{
}

/// Two valid dates of a year with the same day of year are the same.
proof fn lemma_tq_day_of_year_injective(d1: CommonDate, d2: CommonDate)
    requires
        tq_error(d1) is None,
        tq_error(d2) is None,
        d1.year == d2.year,
        tq_day_of_year(d1) == tq_day_of_year(d2),
    ensures
        d1 == d2,
{
    if d1.month != 0 && d2.month != 0 {
        let a1 = (d1.month - 1) * 28 + d1.day;
        let a2 = (d2.month - 1) * 28 + d2.day;
        assert(a1 == a2);
        lemma_div_in_range(a1 - 1, 28, d1.month - 1);
        lemma_div_in_range(a2 - 1, 28, d2.month - 1);
    }
}

/// Represents a date in the Tranquility calendar of Jeff Siggins.
///
/// Thirteen months of 28 days start on July 21 of the Gregorian calendar; Armstrong Day ends
/// the year (July 20) and Aldrin Day (February 29) follows the 27th of Hippocrates in leap
/// years. Moon Landing Day, July 20, 1969, stands alone as the dummy year 0 with month and
/// day 0; the year before it, 1 Before Tranquility, ends on the 28th of Mendel with no
/// Armstrong Day.
#[derive(Debug, Clone, Copy, PartialEq, Eq, Structural)]
pub struct Tranquility(CommonDate);

impl Tranquility {
    #[verifier::type_invariant]
    spec fn valid(self) -> bool {
        tq_error(self.0) is None
    }

    /// The number of days before a year: the day count of July 20 of the Gregorian year
    /// before it, and the day before Moon Landing Day for year 0.
    pub fn prior_elapsed_days(year: i32) -> (r: i64)
        ensures
            r == tq_prior(year as int),
    {
        if year == 0 {
            Tranquility::epoch() - 1
        } else {
            let y: i64 = if year < 0 {
                year as i64 + 1
            } else {
                year as i64
            };
            let g_year = (y - 1) + (TRANQUILITY_EPOCH_YEAR as i64);
            let leap: i64 = if is_leap_wide(g_year) {
                1
            } else {
                0
            };
            prior_elapsed_days_wide(g_year) + 181 + leap + (TRANQUILITY_EPOCH_DAY as i64)
        }
    }

    /// The length of a month: always 28 days.
    pub fn month_length(year: i32, month: TranquilityMonth) -> (r: u8)
        ensures
            r == 28,
    {
        28
    }

    /// The month of the date, or `None` for complementary days.
    pub fn try_month(self) -> (r: Option<TranquilityMonth>)
        ensures
            self.common_view().month == 0 ==> r is None,
            self.common_view().month != 0 ==> (r matches Some(m) && tranquility_month_number(m)
                == self.common_view().month),
    {
        proof {
            use_type_invariant(&self);
        }
        TranquilityMonth::from_u8(self.0.month)
    }
}

impl HasLeapYears for Tranquility {
    open spec fn leap_spec(year: int) -> bool {
        tq_leap(year)
    }

    fn is_leap(t_year: i32) -> (r: bool) {
        let r = if t_year > 0 {
            is_leap_wide(t_year as i64 + TRANQUILITY_EPOCH_YEAR as i64)
        } else if t_year < 0 {
            is_leap_wide(t_year as i64 + TRANQUILITY_EPOCH_YEAR as i64 + 1)
        } else {
            false
        };
        assert(Self::leap_spec(t_year as int) == tq_leap(t_year as int));
        r
    }
}

impl Epoch for Tranquility {
    open spec fn epoch_spec() -> int {
        tq_epoch()
    }

    fn epoch() -> (r: i64) {
        let d = CommonDate::new(TRANQUILITY_EPOCH_YEAR, TRANQUILITY_EPOCH_MONTH, TRANQUILITY_EPOCH_DAY);
        let g = Gregorian::try_from_common_date(d);
        proof {
            assert(g is Ok);
        }
        let r = g.unwrap().to_fixed();
        assert(Self::epoch_spec() == 718998);
        r
    }
}

impl ToFromCommonDate for Tranquility {
    closed spec fn common_view(self) -> CommonDate {
        self.0
    }

    open spec fn ymd_error(d: CommonDate) -> Option<CalendarError> {
        tq_error(d)
    }

    open spec fn year_start_spec(year: int) -> CommonDate {
        if year == 0 {
            CommonDate { year: 0, month: 0, day: 0 }
        } else {
            CommonDate { year: year as i32, month: 1, day: 1 }
        }
    }

    open spec fn year_end_spec(year: int) -> CommonDate {
        if year == 0 {
            CommonDate { year: 0, month: 0, day: 0 }
        } else if year == -1 {
            CommonDate { year: -1i32, month: 13, day: 28 }
        } else {
            CommonDate { year: year as i32, month: 0, day: 1 }
        }
    }

    fn to_common_date(self) -> (r: CommonDate) {
        proof {
            use_type_invariant(&self);
        }
        self.0
    }

    fn from_common_date_unchecked(d: CommonDate) -> (r: Self) {
        Tranquility(d)
    }

    fn valid_ymd(date: CommonDate) -> (r: Result<(), CalendarError>) {
        if date.month > 13 {
            Err(CalendarError::InvalidMonth)
        } else if date.month == NON_MONTH {
            if date.day == 0 && date.year == 0 {
                Ok(())
            } else if date.day == 1 && date.year != 0 && date.year != -1 {
                Ok(())
            } else if date.day == 2 && date.year != 0 && Self::is_leap(date.year) {
                Ok(())
            } else {
                Err(CalendarError::InvalidDay)
            }
        } else if date.day < 1 || date.day > 28 {
            Err(CalendarError::InvalidDay)
        } else if date.year == 0 {
            Err(CalendarError::InvalidYear)
        } else {
            Ok(())
        }
    }

    fn year_start_date(year: i32) -> (r: CommonDate) {
        if year == 0 {
            CommonDate::new(year, NON_MONTH, TranquilityComplementaryDay::MoonLandingDay.to_u8())
        } else {
            CommonDate::new(year, 1, 1)
        }
    }

    fn year_end_date(year: i32) -> (r: CommonDate) {
        if year == 0 {
            CommonDate::new(year, NON_MONTH, TranquilityComplementaryDay::MoonLandingDay.to_u8())
        } else if year == -1 {
            CommonDate::new(year, TranquilityMonth::Mendel.to_u8(), 28)
        } else {
            CommonDate::new(year, NON_MONTH, TranquilityComplementaryDay::ArmstrongDay.to_u8())
        }
    }
}

impl HasIntercalaryDays<TranquilityComplementaryDay> for Tranquility {
    open spec fn complementary_spec(self) -> Option<TranquilityComplementaryDay> {
        if self.common_view().month == 0 {
            Some(tq_complementary_of_number(self.common_view().day as int))
        } else {
            None
        }
    }

    open spec fn complementary_count_spec(year: int) -> int {
        tq_complementary_count(year)
    }

    fn complementary(self) -> (r: Option<TranquilityComplementaryDay>) {
        proof {
            use_type_invariant(&self);
        }
        let r = if self.0.month == NON_MONTH {
            TranquilityComplementaryDay::from_u8(self.0.day)
        } else {
            None
        };
        assert(r == self.complementary_spec());
        r
    }

    fn complementary_count(p_year: i32) -> (r: u8) {
        let r = if Self::is_leap(p_year) {
            2
        } else if p_year == -1 {
            0
        } else {
            1
        };
        assert(r == Self::complementary_count_spec(p_year as int));
        r
    }
}

/// The complementary day with a number from 0 to 2.
pub open spec fn tq_complementary_of_number(n: int) -> TranquilityComplementaryDay {
    if n == 0 {
        TranquilityComplementaryDay::MoonLandingDay
    } else if n == 1 {
        TranquilityComplementaryDay::ArmstrongDay
    } else {
        TranquilityComplementaryDay::AldrinDay
    }
}

impl Perennial<Weekday> for Tranquility {
    open spec fn weekday_spec(self) -> Option<Weekday> {
        if self.common_view().month == 0 {
            None
        } else {
            Some(weekday_of_number((self.common_view().day as int + 4) % 7))
        }
    }

    open spec fn days_per_week_spec() -> int {
        7
    }

    open spec fn weeks_per_month_spec() -> int {
        4
    }

    fn weekday(self) -> (r: Option<Weekday>) {
        proof {
            use_type_invariant(&self);
        }
        if self.0.month == NON_MONTH {
            None
        } else {
            Weekday::from_i64(modulus((self.0.day as i64) + 4, 7))
        }
    }

    fn days_per_week() -> (r: u8) {
        7
    }

    fn weeks_per_month() -> (r: u8) {
        4
    }
}

impl Quarter for Tranquility {
    open spec fn quarter_spec(self) -> int {
        let d = self.common_view();
        if d.month == 0 {
            if d.day == 2 {
                3
            } else {
                4
            }
        } else {
            (((d.month - 1) * 28 + d.day - 1) / 7) / 13 + 1
        }
    }

    fn quarter(self) -> (r: u8) {
        proof {
            use_type_invariant(&self);
        }
        match (self.try_week_of_year(), self.complementary()) {
            (None, Some(TranquilityComplementaryDay::AldrinDay)) => 3,
            (Some(w), None) => {
                proof {
                    lemma_div_mod_parts(((self.0.month - 1) * 28 + self.0.day - 1) as int, 7);
                }
                (w - 1) / 13 + 1
            },
            (_, _) => 4,
        }
    }
}

/// The date of a valid year and day of year: Moon Landing Day for year 0, Armstrong Day
/// at the end of the year, Aldrin Day on day 224 of a leap year, and otherwise months of 28
/// days with one day skipped after Aldrin Day.
pub open spec fn tq_date_of_ordinal(ord: OrdinalDate) -> CommonDate {
    let leap = tq_leap(ord.year as int);
    let doy = ord.day_of_year as int;
    if ord.year == 0 {
        CommonDate { year: 0, month: 0, day: 0 }
    } else if (doy == 365 && !leap) || (doy == 366 && leap) {
        CommonDate { year: ord.year, month: 0, day: 1 }
    } else if doy == AFTER_H27 && leap {
        CommonDate { year: ord.year, month: 0, day: 2 }
    } else {
        let a = if doy < AFTER_H27 || !leap {
            doy
        } else {
            doy - 1
        };
        CommonDate {
            year: ord.year,
            month: ((a - 1) / 28 + 1) as u8,
            day: (if a % 28 == 0 {
                28
            } else {
                a % 28
            }) as u8,
        }
    }
}

/// The date of a valid year and day of year is valid and has that day of year.
proof fn lemma_tq_date_of_ordinal(ord: OrdinalDate)
    requires
        tq_ordinal_valid(ord),
    ensures
        tq_error(tq_date_of_ordinal(ord)) is None,
        tq_date_of_ordinal(ord).year == ord.year,
        tq_day_of_year(tq_date_of_ordinal(ord)) == ord.day_of_year,
{
    let leap = tq_leap(ord.year as int);
    let doy = ord.day_of_year as int;
    if ord.year != 0 && !((doy == 365 && !leap) || (doy == 366 && leap)) && !(doy == AFTER_H27
        && leap) {
        let a = if doy < AFTER_H27 || !leap {
            doy
        } else {
            doy - 1
        };
        lemma_div_mod_parts(a - 1, 28);
        lemma_div_mod_parts(a, 28);
        if a % 28 == 0 {
            lemma_div_in_range(a - 1, 28, a / 28 - 1);
        } else {
            lemma_div_in_range(a - 1, 28, a / 28);
        }
        if (a - 1) / 28 >= 13 {
            lemma_div_in_range(a - 1, 28, 13);
        }
    }
}

/// Different valid dates have different day counts.
pub proof fn lemma_tq_fixed_injective(d1: CommonDate, d2: CommonDate)
    requires
        tq_error(d1) is None,
        tq_error(d2) is None,
        tq_fixed(d1) == tq_fixed(d2),
    ensures
        d1 == d2,
{
    lemma_tq_day_of_year_bounds(d1);
    lemma_tq_day_of_year_bounds(d2);
    if d1.year < d2.year {
        lemma_tq_prior_monotone(d1.year as int, d2.year as int);
    } else if d2.year < d1.year {
        lemma_tq_prior_monotone(d2.year as int, d1.year as int);
    } else {
        lemma_tq_day_of_year_injective(d1, d2);
    }
}

/// The date that `tq_from_fixed` finds is the only one with that day count.
pub proof fn lemma_tq_from_fixed_unique(c: CommonDate, date: int)
    requires
        tq_error(c) is None,
        tq_fixed(c) == date,
    ensures
        tq_from_fixed(date) == c,
{
    let w = tq_from_fixed(date);
    assert(tq_error(c) is None && tq_fixed(c) == date);
    lemma_tq_fixed_injective(w, c);
}

/// Shifting a Gregorian day of year by 164 days (the days from July 21 to December 31)
/// gives the Tranquility year and day of year: the Gregorian year less 1969, or 1968 once
/// the shift passes the end of the Gregorian year, with no year 0.
proof fn lemma_tq_ordinal_shift(gy: int, gdoy: int, tq_doy: int, year: int)
    requires
        -50000000 <= gy <= 50000000,
        1 <= gdoy <= solar_year_length(gregorian_leap(gy)),
        tq_doy == (if gdoy + 164 <= solar_year_length(gregorian_leap(gy)) {
            gdoy + 164
        } else {
            gdoy + 164 - solar_year_length(gregorian_leap(gy))
        }),
        ({
            let y1 = gy - 1969 + (if tq_doy <= 164 {
                1int
            } else {
                0int
            });
            year == (if y1 < 1 {
                y1 - 1
            } else {
                y1
            })
        }),
    ensures
        year == -1 && tq_doy == 365 ==> gregorian_prior_elapsed(gy) + gdoy == tq_epoch(),
        !(year == -1 && tq_doy == 365) ==> tq_ordinal_valid(
            OrdinalDate { year: year as i32, day_of_year: tq_doy as u16 },
        ) && tq_prior(year) + tq_doy == gregorian_prior_elapsed(gy) + gdoy,
        year != 0,
{
    lemma_gregorian_prior_step(gy - 1);
}

impl ToFromOrdinalDate for Tranquility {
    open spec fn ordinal_error(ord: OrdinalDate) -> Option<CalendarError> {
        if tq_ordinal_valid(ord) {
            None
        } else {
            Some(CalendarError::InvalidDayOfYear)
        }
    }

    open spec fn ordinal_of(d: CommonDate) -> OrdinalDate {
        OrdinalDate { year: d.year, day_of_year: tq_day_of_year(d) as u16 }
    }

    open spec fn fixed_of_ordinal(ord: OrdinalDate) -> int {
        tq_prior(ord.year as int) + ord.day_of_year
    }

    fn valid_ordinal(ord: OrdinalDate) -> (r: Result<(), CalendarError>) {
        let correction: u16 = if Self::is_leap(ord.year) {
            1
        } else {
            0
        };
        let last: u16 = if ord.year == 0 {
            1
        } else if ord.year == -1 {
            364
        } else {
            365 + correction
        };
        if ord.day_of_year > 0 && ord.day_of_year <= last {
            Ok(())
        } else {
            Err(CalendarError::InvalidDayOfYear)
        }
    }

    fn ordinal_from_fixed(fixed_date: i64) -> (r: OrdinalDate) {
        let ordinal_shift: i64 = (TranquilityMonth::Faraday.to_u8() as i64 * 28) - 4;
        let g_ord = Gregorian::ordinal_from_fixed(fixed_date);
        proof {
            lemma_gregorian_year_bounds(fixed_date as int, g_ord.year as int);
        }
        let g_doy_shift = (g_ord.day_of_year as i64) + ordinal_shift;
        let g_len: i64 = if Gregorian::is_leap(g_ord.year) {
            366
        } else {
            365
        };
        let tq_doy = adjusted_remainder(g_doy_shift, g_len);
        proof {
            if g_doy_shift < g_len {
                lemma_div_in_range(g_doy_shift as int, g_len as int, 0);
            } else {
                lemma_div_in_range(g_doy_shift as int, g_len as int, 1);
            }
        }
        let y_approx_0 = g_ord.year - TRANQUILITY_EPOCH_YEAR;
        let correct_0 = if tq_doy <= ordinal_shift {
            1
        } else {
            0
        };
        let y_approx_1 = y_approx_0 + correct_0;
        let year = if y_approx_1 < 1 {
            y_approx_1 - 1
        } else {
            y_approx_1
        };
        proof {
            lemma_tq_ordinal_shift(
                g_ord.year as int,
                g_ord.day_of_year as int,
                tq_doy as int,
                year as int,
            );
        }
        if year == -1 && tq_doy == 365 {
            OrdinalDate { year: 0, day_of_year: 1 }
        } else {
            OrdinalDate { year: year, day_of_year: tq_doy as u16 }
        }
    }

    fn to_ordinal(self) -> (r: OrdinalDate)
        ensures
            Self::ordinal_error(r) is None,
    {
        proof {
            use_type_invariant(&self);
            lemma_tq_day_of_year_bounds(self.0);
        }
        let comp_count = Self::complementary_count(self.0.year) as i64;
        let ordinal_day: i64 = match self.complementary() {
            Some(TranquilityComplementaryDay::MoonLandingDay) => 1,
            Some(TranquilityComplementaryDay::ArmstrongDay) => 364 + comp_count,
            Some(TranquilityComplementaryDay::AldrinDay) => AFTER_H27,
            None => {
                let month = self.0.month as i64;
                let day = self.0.day as i64;
                let approx = ((month - 1) * 28) + day;
                let correction = if approx < AFTER_H27 || comp_count < 2 {
                    0
                } else {
                    1
                };
                approx + correction
            },
        };
        OrdinalDate { year: self.0.year, day_of_year: ordinal_day as u16 }
    }

    fn from_ordinal_unchecked(ord: OrdinalDate) -> (r: Self)
        ensures
            tq_error(r.common_view()) is None,
    {
        proof {
            lemma_tq_date_of_ordinal(ord);
        }
        let leap = Self::is_leap(ord.year);
        let doy = ord.day_of_year as i64;
        let date_tq = if ord.year == 0 {
            CommonDate::new(0, NON_MONTH, 0)
        } else if doy == 365 && !leap {
            CommonDate::new(ord.year, NON_MONTH, 1)
        } else if doy == 366 && leap {
            CommonDate::new(ord.year, NON_MONTH, 1)
        } else if doy == AFTER_H27 && leap {
            CommonDate::new(ord.year, NON_MONTH, 2)
        } else {
            let correction = if doy < AFTER_H27 || !leap {
                0
            } else {
                1
            };
            let month = (div_floor((doy - correction) - 1, 28) + 1) as u8;
            let day = adjusted_remainder(doy - correction, 28) as u8;
            CommonDate::new(ord.year, month, day)
        };
        proof {
            assert(date_tq == tq_date_of_ordinal(ord));
        }
        let r = Tranquility(date_tq);
        proof {
            use_type_invariant(&r);
        }
        r
    }
}

impl ToFixed for Tranquility {
    open spec fn fixed_spec(self) -> int {
        tq_fixed(self.common_view())
    }

    fn to_fixed(self) -> (r: i64) {
        let ord = self.to_ordinal();
        let offset_prior = Tranquility::prior_elapsed_days(ord.year);
        offset_prior + (ord.day_of_year as i64)
    }
}

impl FromFixed for Tranquility {
    closed spec fn from_fixed_spec(date: int) -> Self {
        Tranquility(tq_from_fixed(date))
    }

    fn from_fixed(date: i64) -> (r: Self)
        ensures
            r.common_view() == tq_from_fixed(date as int),
    {
        let ord = Tranquility::ordinal_from_fixed(date);
        let r = Tranquility::from_ordinal_unchecked(ord);
        proof {
            use_type_invariant(&r);
            lemma_tq_from_fixed_unique(r.0, date as int);
        }
        r
    }
}

/// A valid Tranquility date is the only valid date with its year and day of year, so
/// building a date from the year and day of year of a date gives that date back; this holds
/// of Moon Landing Day, Armstrong Day and Aldrin Day too.
pub proof fn law_tranquility_ordinal_roundtrip(d1: CommonDate, d2: CommonDate)
    requires
        tq_error(d1) is None,
        tq_error(d2) is None,
        Tranquility::ordinal_of(d1) == Tranquility::ordinal_of(d2),
    ensures
        d1 == d2,
{
    lemma_tq_day_of_year_bounds(d1);
    lemma_tq_day_of_year_bounds(d2);
    lemma_tq_day_of_year_injective(d1, d2);
}

/// Every day count within the supported range is the day count of exactly one
/// Tranquility date, and `tq_from_fixed` finds it.
pub proof fn law_tranquility_fixed_roundtrip(date: int)
    requires
        fixed_in_bounds(date),
    ensures
        tq_error(tq_from_fixed(date)) is None,
        tq_fixed(tq_from_fixed(date)) == date,
{
    crate::calendar::gregorian::law_gregorian_fixed_roundtrip(date);
    let g = crate::calendar::gregorian::gregorian_from_fixed(date);
    let gy = g.year as int;
    let gdoy = crate::calendar::gregorian::gregorian_day_of_year(g);
    crate::calendar::gregorian::lemma_gregorian_fixed_in_year(g);
    let len = solar_year_length(gregorian_leap(gy));
    let tq_doy = if gdoy + 164 <= len {
        gdoy + 164
    } else {
        gdoy + 164 - len
    };
    let y1 = gy - 1969 + (if tq_doy <= 164 {
        1int
    } else {
        0int
    });
    let year = if y1 < 1 {
        y1 - 1
    } else {
        y1
    };
    lemma_tq_ordinal_shift(gy, gdoy, tq_doy, year);
    let ord = if year == -1 && tq_doy == 365 {
        OrdinalDate { year: 0, day_of_year: 1 }
    } else {
        OrdinalDate { year: year as i32, day_of_year: tq_doy as u16 }
    };
    lemma_tq_date_of_ordinal(ord);
    lemma_tq_from_fixed_unique(tq_date_of_ordinal(ord), date);
}

/// Converting a valid Tranquility date to its day count and back gives the same date.
pub proof fn law_tranquility_date_roundtrip(c: CommonDate)
    requires
        tq_error(c) is None,
    ensures
        tq_from_fixed(tq_fixed(c)) == c,
{
    lemma_tq_from_fixed_unique(c, tq_fixed(c));
}

impl PartialOrd for Tranquility {
    fn partial_cmp(&self, other: &Self) -> (r: Option<Ordering>) {
        if self == other {
            Some(Ordering::Equal)
        } else {
            let self_ord = self.to_ordinal();
            let other_ord = other.to_ordinal();
            if self_ord.year < other_ord.year || (self_ord.year == other_ord.year
                && self_ord.day_of_year < other_ord.day_of_year) {
                Some(Ordering::Less)
            } else if self_ord.year == other_ord.year && self_ord.day_of_year
                == other_ord.day_of_year {
                Some(Ordering::Equal)
            } else {
                Some(Ordering::Greater)
            }
        }
    }
}

impl PartialOrdSpecImpl for Tranquility {
    open spec fn obeys_partial_cmp_spec() -> bool {
        true
    }

    open spec fn partial_cmp_spec(&self, other: &Self) -> Option<Ordering> {
        let a = Self::ordinal_of(self.common_view());
        let b = Self::ordinal_of(other.common_view());
        if *self == *other {
            Some(Ordering::Equal)
        } else if a.year < b.year || (a.year == b.year && a.day_of_year < b.day_of_year) {
            Some(Ordering::Less)
        } else if a.year == b.year && a.day_of_year == b.day_of_year {
            Some(Ordering::Equal)
        } else {
            Some(Ordering::Greater)
        }
    }
}


impl CalculatedBounds for Tranquility {
    open spec fn valid_date(self) -> bool {
        tq_error(self.common_view()) is None
    }

    proof fn lemma_from_fixed_keeps_day(date: int) {
        law_tranquility_fixed_roundtrip(date);
    }

    proof fn lemma_to_fixed_and_back(x: Self) {
        law_tranquility_date_roundtrip(x.common_view());
    }
}

/// The Gregorian year in which a Tranquility year starts (on July 21).
pub open spec fn tq_gregorian_start_year(year: int) -> int {
    if year < 0 {
        year + 1969
    } else {
        year + 1968
    }
}

/// The first and last Gregorian month and day of each Tranquility month, from Archimedes
/// (July 21 to August 17) to Mendel (June 22 to July 19).
pub open spec fn tq_month_gregorian_range(m: int) -> (int, int, int, int) {
    if m == 1 {
        (7, 21, 8, 17)
    } else if m == 2 {
        (8, 18, 9, 14)
    } else if m == 3 {
        (9, 15, 10, 12)
    } else if m == 4 {
        (10, 13, 11, 9)
    } else if m == 5 {
        (11, 10, 12, 7)
    } else if m == 6 {
        (12, 8, 1, 4)
    } else if m == 7 {
        (1, 5, 2, 1)
    } else if m == 8 {
        (2, 2, 3, 1)
    } else if m == 9 {
        (3, 2, 3, 29)
    } else if m == 10 {
        (3, 30, 4, 26)
    } else if m == 11 {
        (4, 27, 5, 24)
    } else if m == 12 {
        (5, 25, 6, 21)
    } else {
        (6, 22, 7, 19)
    }
}

/// Each Tranquility month lies between the same Gregorian days every year (Faraday
/// running from December into January); Moon Landing Day and Armstrong Day are July 20,
/// and Aldrin Day is February 29.
#[verifier::rlimit(60)]
pub proof fn law_tranquility_gregorian_lookup(d: CommonDate)
    requires
        tq_error(d) is None,
        i32::MIN + 1970 <= d.year <= i32::MAX - 1970,
    ensures
        ({
            let gy = tq_gregorian_start_year(d.year as int);
            let r = tq_month_gregorian_range(d.month as int);
            let lo = CommonDate {
                year: (if d.month <= 6 {
                    gy
                } else {
                    gy + 1
                }) as i32,
                month: r.0 as u8,
                day: r.1 as u8,
            };
            let hi = CommonDate {
                year: (if d.month <= 5 {
                    gy
                } else {
                    gy + 1
                }) as i32,
                month: r.2 as u8,
                day: r.3 as u8,
            };
            &&& d.month >= 1 ==> gregorian_fixed(lo) <= tq_fixed(d) <= gregorian_fixed(hi)
            &&& (d.month == 0 && d.day == 0) ==> tq_fixed(d) == gregorian_july_20(1969)
            &&& (d.month == 0 && d.day == 1) ==> tq_fixed(d) == gregorian_july_20(gy + 1)
            &&& (d.month == 0 && d.day == 2) ==> gregorian_leap(gy + 1) && tq_fixed(d)
                == gregorian_fixed(CommonDate { year: (gy + 1) as i32, month: 2, day: 29 })
        }),
{
    let y = d.year as int;
    let gy = tq_gregorian_start_year(y);
    if y != 0 {
        lemma_gregorian_prior_step(gy);
        assert(tq_prior(y) == gregorian_july_20(gy));
        assert(tq_leap(y) == gregorian_leap(gy + 1));
        if d.month >= 1 {
            let doy = tq_day_of_year(d);
            assert((d.month - 1) * 28 + 1 <= doy <= (d.month - 1) * 28 + 29);
        }
    }
}


impl TryMonth<TranquilityMonth> for Tranquility {
    open spec fn month_number(m: TranquilityMonth) -> int {
        tranquility_month_number(m)
    }

    open spec fn in_month(self) -> bool {
        self.common_view().month != 0
    }

    fn try_month(self) -> (r: Option<TranquilityMonth>) {
        proof {
            use_type_invariant(&self);
        }
        Tranquility::try_month(self)
    }
}

/// A Tranquility week has seven days and a month four weeks, 28 days; every month starts on a
/// Friday and ends on a Thursday, and each next day of a month is the next day of the week.
pub proof fn law_tranquility_month_weekdays(x: Tranquility, y: Tranquility)
    ensures
        Tranquility::days_per_week_spec() == 7,
        Tranquility::days_per_week_spec() * Tranquility::weeks_per_month_spec() == 28,
        x.common_view().month != 0 && x.common_view().day == 1 ==> x.weekday_spec() == Some(Weekday::Friday),
        x.common_view().month != 0 && x.common_view().day == 28 ==> x.weekday_spec() == Some(
            Weekday::Thursday,
        ),
        x.common_view().month != 0 && y.common_view().month == x.common_view().month
            && y.common_view().day == x.common_view().day + 1 && y.common_view().month != 0 ==> (x.weekday_spec() matches Some(
            a,
        ) && y.weekday_spec() matches Some(b) && weekday_number(b) == (weekday_number(a) + 1) % 7),
{
}

/// A Tranquility year's four quarters hold thirteen weeks each: the `n`-th day of the
/// thirteen months of 28 days is in the first quarter for `n` up to 91, the second up to 182,
/// the third up to 273 and the fourth up to 364. Aldrin Day is in the third quarter;
/// Armstrong Day and Moon Landing Day are in the fourth.
pub proof fn law_tranquility_quarter(x: Tranquility)
    ensures
        ({
            let m = x.common_view().month as int;
            let n = 28 * (m - 1) + x.common_view().day as int;
            &&& 1 <= m <= 13 && 1 <= n <= 91 ==> x.quarter_spec() == 1
            &&& 1 <= m <= 13 && 92 <= n <= 182 ==> x.quarter_spec() == 2
            &&& 1 <= m <= 13 && 183 <= n <= 273 ==> x.quarter_spec() == 3
            &&& 1 <= m <= 13 && 274 <= n <= 364 ==> x.quarter_spec() == 4
        }),
        x.common_view().month == 0 && x.common_view().day == 2 ==> x.quarter_spec() == 3,
        x.common_view().month == 0 && x.common_view().day != 2 ==> x.quarter_spec() == 4,
{
    let m = x.common_view().month as int;
    let n = 28 * (m - 1) + x.common_view().day as int;
    if 1 <= m <= 13 && 1 <= n <= 364 {
        crate::calendar::arith::lemma_div_mod_parts(n - 1, 7);
        crate::calendar::arith::lemma_div_mod_parts((n - 1) / 7, 13);
        crate::calendar::arith::lemma_div_mod_parts(n - 1, 91);
    }
}

} // verus!
