use crate::calendar::arith::lemma_div_in_range;
use crate::calendar::arith::lemma_div_mod_parts;
use crate::calendar::arith::lemma_div_monotone;
use crate::calendar::prelude::HasLeapYears;
use crate::calendar::prelude::Quarter;
use crate::calendar::prelude::CommonWeekOfYear;
use crate::calendar::prelude::ToFromCommonDate;
use crate::calendar::prelude::ToFromOrdinalDate;
use crate::common::date::CommonDate;
use crate::common::date::OrdinalDate;
use crate::common::error::CalendarError;
use crate::common::math::div_floor;
use crate::common::math::mod_floor;
use crate::common::math::modulus;
use crate::day_count::fixed::fixed_in_bounds;
use crate::day_count::fixed::Epoch;
use crate::day_count::fixed::FromFixed;
use crate::day_count::fixed::ToFixed;
use crate::day_count::fixed::FIXED_MAX;
use crate::day_count::fixed::FIXED_MIN;
use vstd::arithmetic::div_mod::*;
use crate::day_count::fixed::CalculatedBounds;
use crate::calendar::prelude::GuaranteedMonth;
use crate::calendar::prelude::month_in_quarter;
use vstd::prelude::*;

verus! {

/// The day count of January 1, 1 in the proleptic Gregorian calendar.
pub const GREGORIAN_EPOCH_RD: i64 = 1;

/// A month of the Gregorian calendar.
#[derive(Debug, Clone, Copy, PartialEq, Eq, PartialOrd, Ord, Hash, Structural)]
pub enum GregorianMonth {
    January,
    February,
    March,
    April,
    May,
    June,
    July,
    August,
    September,
    October,
    November,
    December,
}

/// The number of a month, from 1 (January) to 12 (December).
pub open spec fn gregorian_month_number(m: GregorianMonth) -> int {
    match m {
        GregorianMonth::January => 1,
        GregorianMonth::February => 2,
        GregorianMonth::March => 3,
        GregorianMonth::April => 4,
        GregorianMonth::May => 5,
        GregorianMonth::June => 6,
        GregorianMonth::July => 7,
        GregorianMonth::August => 8,
        GregorianMonth::September => 9,
        GregorianMonth::October => 10,
        GregorianMonth::November => 11,
        GregorianMonth::December => 12,
    }
}

impl GregorianMonth {
    /// The number of the month.
    pub fn to_u8(self) -> (r: u8)
        ensures
            r == gregorian_month_number(self),
    {
        match self {
            GregorianMonth::January => 1,
            GregorianMonth::February => 2,
            GregorianMonth::March => 3,
            GregorianMonth::April => 4,
            GregorianMonth::May => 5,
            GregorianMonth::June => 6,
            GregorianMonth::July => 7,
            GregorianMonth::August => 8,
            GregorianMonth::September => 9,
            GregorianMonth::October => 10,
            GregorianMonth::November => 11,
            GregorianMonth::December => 12,
        }
    }

    /// The month with the given number, if there is one.
    pub fn from_u8(n: u8) -> (r: Option<GregorianMonth>)
        ensures
            1 <= n <= 12 ==> (r matches Some(m) && gregorian_month_number(m) == n),
            !(1 <= n <= 12) ==> r is None,
    {
        match n {
            1 => Some(GregorianMonth::January),
            2 => Some(GregorianMonth::February),
            3 => Some(GregorianMonth::March),
            4 => Some(GregorianMonth::April),
            5 => Some(GregorianMonth::May),
            6 => Some(GregorianMonth::June),
            7 => Some(GregorianMonth::July),
            8 => Some(GregorianMonth::August),
            9 => Some(GregorianMonth::September),
            10 => Some(GregorianMonth::October),
            11 => Some(GregorianMonth::November),
            12 => Some(GregorianMonth::December),
            _ => None,
        }
    }
}

/// The Gregorian leap year rule: every fourth year, except centuries not divisible by 400.
pub open spec fn gregorian_leap(y: int) -> bool {
    y % 4 == 0 && (y % 100 != 0 || y % 400 == 0)
}

/// The length of a month in the twelve-month scheme shared with the Julian calendar.
pub open spec fn solar_month_length(leap: bool, m: int) -> int {
    if m == 2 {
        if leap {
            29
        } else {
            28
        }
    } else if m == 4 || m == 6 || m == 9 || m == 11 {
        30
    } else {
        31
    }
}

/// The number of days in the months before month `m`.
pub open spec fn solar_days_before_month(leap: bool, m: int) -> int {
    let common: int = if m <= 1 {
        0
    } else if m == 2 {
        31
    } else if m == 3 {
        59
    } else if m == 4 {
        90
    } else if m == 5 {
        120
    } else if m == 6 {
        151
    } else if m == 7 {
        181
    } else if m == 8 {
        212
    } else if m == 9 {
        243
    } else if m == 10 {
        273
    } else if m == 11 {
        304
    } else {
        334
    };
    if leap && m > 2 {
        common + 1
    } else {
        common
    }
}

pub open spec fn solar_year_length(leap: bool) -> int {
    if leap {
        366
    } else {
        365
    }
}

/// Why a year, month and day is not a date of a twelve-month solar calendar.
pub open spec fn solar_error(leap: bool, d: CommonDate) -> Option<CalendarError> {
    if d.month < 1 || d.month > 12 {
        Some(CalendarError::InvalidMonth)
    } else if d.day < 1 || d.day > solar_month_length(leap, d.month as int) {
        Some(CalendarError::InvalidDay)
    } else {
        None
    }
}

pub open spec fn gregorian_error(d: CommonDate) -> Option<CalendarError> {
    solar_error(gregorian_leap(d.year as int), d)
}

/// The number of days of the Gregorian years before `year`, counted from the epoch.
pub open spec fn gregorian_prior_elapsed(year: int) -> int {
    365 * (year - 1) + (year - 1) / 4 - (year - 1) / 100 + (year - 1) / 400
}

pub open spec fn gregorian_day_of_year(d: CommonDate) -> int {
    solar_days_before_month(gregorian_leap(d.year as int), d.month as int) + d.day
}

/// The day count of a Gregorian date.
pub open spec fn gregorian_fixed(d: CommonDate) -> int {
    gregorian_prior_elapsed(d.year as int) + gregorian_day_of_year(d)
}

/// Whether a year and day of year is a day of the Gregorian calendar.
pub open spec fn gregorian_ordinal_valid(ord: OrdinalDate) -> bool {
    1 <= ord.day_of_year <= solar_year_length(gregorian_leap(ord.year as int))
}

/// The Gregorian date of a day count.
pub open spec fn gregorian_from_fixed(date: int) -> CommonDate {
    choose|c: CommonDate| gregorian_error(c) is None && gregorian_fixed(c) == date
}

/// The number of the quarter that a month of a twelve-month year falls in.
pub open spec fn month_quarter(m: int) -> int {
    (m - 1) / 3 + 1
}

/// Represents a date in the proleptic Gregorian calendar.
#[derive(Debug, Clone, Copy, PartialEq, Eq, Structural)]
pub struct Gregorian(CommonDate);

impl Gregorian {
    #[verifier::type_invariant]
    spec fn valid(self) -> bool {
        gregorian_error(self.0) is None
    }

    /// The number of days before the given year, counted from the epoch.
    pub fn prior_elapsed_days(year: i32) -> (r: i64)
        ensures
            r == gregorian_prior_elapsed(year as int),
    {
        let year = year as i64;
        let offset_e = GREGORIAN_EPOCH_RD - 1;
        let offset_y = 365 * (year - 1);
        let offset_leap = div_floor(year - 1, 4) - div_floor(year - 1, 100) + div_floor(
            year - 1,
            400,
        );
        offset_e + offset_y + offset_leap
    }

    /// The length of a month in a given year.
    pub fn month_length(year: i32, month: GregorianMonth) -> (r: u8)
        ensures
            r == solar_month_length(gregorian_leap(year as int), gregorian_month_number(month)),
    {
        match month {
            GregorianMonth::January => 31,
            GregorianMonth::February => {
                if Gregorian::is_leap(year) {
                    29
                } else {
                    28
                }
            },
            GregorianMonth::March => 31,
            GregorianMonth::April => 30,
            GregorianMonth::May => 31,
            GregorianMonth::June => 30,
            GregorianMonth::July => 31,
            GregorianMonth::August => 31,
            GregorianMonth::September => 30,
            GregorianMonth::October => 31,
            GregorianMonth::November => 30,
            GregorianMonth::December => 31,
        }
    }

    /// The month of the date.
    pub fn month(self) -> (r: GregorianMonth)
        ensures
            gregorian_month_number(r) == self.common_view().month,
    {
        proof {
            use_type_invariant(&self);
        }
        GregorianMonth::from_u8(self.0.month).unwrap()
    }

    /// Attempts to build a Gregorian date.
    pub fn try_new(year: i32, month: GregorianMonth, day: u8) -> (r: Result<
        Gregorian,
        CalendarError,
    >)
        ensures
            ({
                let d = CommonDate { year, month: gregorian_month_number(month) as u8, day };
                &&& gregorian_error(d) is None ==> (r matches Ok(x) && x.common_view() == d)
                &&& gregorian_error(d) matches Some(e) ==> r == Err::<Gregorian, CalendarError>(
                    e,
                )
            }),
    {
        Gregorian::try_from_common_date(CommonDate::new(year, month.to_u8(), day))
    }
}

/// Day of year of the given month and day, by the arithmetic shortcut for the month offsets.
pub(crate) fn solar_ordinal(leap: bool, month: u8, day: u8) -> (r: u16)
    requires
        1 <= month <= 12,
        1 <= day <= 31,
    ensures
        r == solar_days_before_month(leap, month as int) + day,
{
    let m = month as i64;
    let offset_m = div_floor((367 * m) - 362, 12);
    proof {
        lemma_solar_month_offset(m as int);
    }
    let offset_x: i64 = if m <= 2 {
        0
    } else if leap {
        -1
    } else {
        -2
    };
    (offset_m + offset_x + (day as i64)) as u16
}

/// The arithmetic shortcut for the days before a month gives the table.
pub proof fn lemma_solar_month_offset(m: int)
    requires
        1 <= m <= 12,
    ensures
        (367 * m - 362) / 12 == solar_days_before_month(false, m) + (if m <= 2 {
            0int
        } else {
            2int
        }),
{
    let t = solar_days_before_month(false, m) + (if m <= 2 {
        0int
    } else {
        2int
    });
    if m == 1 {
        lemma_div_in_range(367 * m - 362, 12, 0);
    } else if m == 2 {
        lemma_div_in_range(367 * m - 362, 12, 31);
    } else if m == 3 {
        lemma_div_in_range(367 * m - 362, 12, 61);
    } else if m == 4 {
        lemma_div_in_range(367 * m - 362, 12, 92);
    } else if m == 5 {
        lemma_div_in_range(367 * m - 362, 12, 122);
    } else if m == 6 {
        lemma_div_in_range(367 * m - 362, 12, 153);
    } else if m == 7 {
        lemma_div_in_range(367 * m - 362, 12, 183);
    } else if m == 8 {
        lemma_div_in_range(367 * m - 362, 12, 214);
    } else if m == 9 {
        lemma_div_in_range(367 * m - 362, 12, 245);
    } else if m == 10 {
        lemma_div_in_range(367 * m - 362, 12, 275);
    } else if m == 11 {
        lemma_div_in_range(367 * m - 362, 12, 306);
    } else {
        lemma_div_in_range(367 * m - 362, 12, 336);
    }
}

/// Month lengths and offsets of the twelve-month scheme fit together.
pub proof fn lemma_solar_months(leap: bool, m: int)
    requires
        1 <= m <= 12,
    ensures
        m < 12 ==> solar_days_before_month(leap, m + 1) == solar_days_before_month(leap, m)
            + solar_month_length(leap, m),
        m == 12 ==> solar_days_before_month(leap, m) + solar_month_length(leap, m)
            == solar_year_length(leap),
        solar_days_before_month(leap, 1) == 0,
{
}

/// Offsets of months are ordered as the months are.
pub proof fn lemma_solar_months_ordered(leap: bool, m1: int, m2: int)
    requires
        1 <= m1 < m2 <= 12,
    ensures
        solar_days_before_month(leap, m1) + solar_month_length(leap, m1)
            <= solar_days_before_month(leap, m2),
    decreases m2 - m1,
{
    lemma_solar_months(leap, m1);
    if m1 + 1 < m2 {
        lemma_solar_months_ordered(leap, m1 + 1, m2);
        lemma_solar_months(leap, m1 + 1);
    }
}

/// A valid month and day gives a day of year within the year.
pub proof fn lemma_solar_day_of_year_bounds(leap: bool, m: int, d: int)
    requires
        1 <= m <= 12,
        1 <= d <= solar_month_length(leap, m),
    ensures
        1 <= solar_days_before_month(leap, m) + d <= solar_year_length(leap),
{
    lemma_solar_months(leap, m);
    if m < 12 {
        lemma_solar_months_ordered(leap, m, 12);
        lemma_solar_months(leap, 12);
    }
}

/// Two valid months and days with the same day of year are the same.
pub proof fn lemma_solar_day_of_year_injective(leap: bool, m1: int, d1: int, m2: int, d2: int)
    requires
        1 <= m1 <= 12,
        1 <= d1 <= solar_month_length(leap, m1),
        1 <= m2 <= 12,
        1 <= d2 <= solar_month_length(leap, m2),
        solar_days_before_month(leap, m1) + d1 == solar_days_before_month(leap, m2) + d2,
    ensures
        m1 == m2,
        d1 == d2,
{
    if m1 < m2 {
        lemma_solar_months_ordered(leap, m1, m2);
    } else if m2 < m1 {
        lemma_solar_months_ordered(leap, m2, m1);
    }
}

/// The month that the arithmetic shortcut finds for a day of year holds that day.
pub proof fn lemma_solar_month_of_day(leap: bool, doy: int)
    requires
        1 <= doy <= solar_year_length(leap),
    ensures
        ({
            let c = if doy < 60 + (if leap {
                1int
            } else {
                0int
            }) {
                0int
            } else if leap {
                1int
            } else {
                2int
            };
            let m = (12 * (doy - 1 + c) + 373) / 367;
            &&& 1 <= m <= 12
            &&& solar_days_before_month(leap, m) < doy <= solar_days_before_month(leap, m)
                + solar_month_length(leap, m)
        }),
{
    let l: int = if leap {
        1
    } else {
        0
    };
    let c = if doy < 60 + l {
        0int
    } else if leap {
        1int
    } else {
        2int
    };
    let x = 12 * (doy - 1 + c) + 373;
    if doy <= 31 {
        lemma_div_in_range(x, 367, 1);
    } else if doy < 60 + l {
        lemma_div_in_range(x, 367, 2);
    } else if doy <= 90 + l {
        lemma_div_in_range(x, 367, 3);
    } else if doy <= 120 + l {
        lemma_div_in_range(x, 367, 4);
    } else if doy <= 151 + l {
        lemma_div_in_range(x, 367, 5);
    } else if doy <= 181 + l {
        lemma_div_in_range(x, 367, 6);
    } else if doy <= 212 + l {
        lemma_div_in_range(x, 367, 7);
    } else if doy <= 243 + l {
        lemma_div_in_range(x, 367, 8);
    } else if doy <= 273 + l {
        lemma_div_in_range(x, 367, 9);
    } else if doy <= 304 + l {
        lemma_div_in_range(x, 367, 10);
    } else if doy <= 334 + l {
        lemma_div_in_range(x, 367, 11);
    } else {
        lemma_div_in_range(x, 367, 12);
    }
}

/// Finds the month and day of a valid day of year in a twelve-month solar year.
pub(crate) fn solar_from_ordinal(leap: bool, doy: u16) -> (r: (u8, u8))
    requires
        1 <= doy <= solar_year_length(leap),
    ensures
        1 <= r.0 <= 12,
        1 <= r.1 <= solar_month_length(leap, r.0 as int),
        solar_days_before_month(leap, r.0 as int) + r.1 == doy,
{
    let prior_days: i64 = (doy as i64) - 1;
    let march1 = solar_ordinal(leap, 3, 1);
    let correction: i64 = if doy < march1 {
        0
    } else if leap {
        1
    } else {
        2
    };
    proof {
        lemma_solar_month_of_day(leap, doy as int);
    }
    let month = div_floor(12 * (prior_days + correction) + 373, 367) as u8;
    let month_start = solar_ordinal(leap, month, 1);
    let day = ((doy - month_start) as u8) + 1;
    (month, day)
}

/// The days before a year, written for a year given by its 400, 100, 4 and 1 year cycles.
proof fn lemma_gregorian_prior_cycles(n400: int, n100: int, n4: int, n1: int)
    requires
        0 <= n100 <= 3,
        0 <= n4 <= 24,
        0 <= n1 <= 3,
    ensures
        gregorian_prior_elapsed(400 * n400 + 100 * n100 + 4 * n4 + n1 + 1) == 146097 * n400
            + 36524 * n100 + 1461 * n4 + 365 * n1,
{
    let y = 400 * n400 + 100 * n100 + 4 * n4 + n1;
    lemma_div_in_range(y, 4, 100 * n400 + 25 * n100 + n4);
    lemma_div_in_range(y, 100, 4 * n400 + n100);
    lemma_div_in_range(y, 400, n400);
}

/// Each year adds its length to the count of prior days.
pub proof fn lemma_gregorian_prior_step(y: int)
    ensures
        gregorian_prior_elapsed(y + 1) == gregorian_prior_elapsed(y) + solar_year_length(
            gregorian_leap(y),
        ),
{
    lemma_div_step(y - 1, 4);
    lemma_div_step(y - 1, 100);
    lemma_div_step(y - 1, 400);
    lemma_mod_mod(y, 4, 25);
    lemma_mod_mod(y, 100, 4);
}

/// Adding one to the dividend adds one to the quotient exactly at multiples of the divisor.
pub proof fn lemma_div_step(a: int, d: int)
    requires
        d > 0,
    ensures
        (a + 1) / d == a / d + (if (a + 1) % d == 0 {
            1int
        } else {
            0int
        }),
{
    lemma_div_mod_parts(a, d);
    let q = a / d;
    let r = a % d;
    assert((q + 1) * d == q * d + d && q * d == d * q) by (nonlinear_arith);
    if r == d - 1 {
        lemma_div_in_range(a + 1, d, q + 1);
    } else {
        lemma_div_in_range(a + 1, d, q);
    }
}

/// The count of prior days grows with the year.
pub proof fn lemma_gregorian_prior_monotone(a: int, b: int)
    requires
        a <= b,
    ensures
        gregorian_prior_elapsed(a) <= gregorian_prior_elapsed(b),
        a < b ==> gregorian_prior_elapsed(a) + solar_year_length(gregorian_leap(a))
            <= gregorian_prior_elapsed(b),
    decreases b - a,
{
    if a < b {
        lemma_gregorian_prior_monotone(a, b - 1);
        lemma_gregorian_prior_step(b - 1);
        lemma_gregorian_prior_step(a);
    }
}

/// The day count of a valid date falls within its year.
pub proof fn lemma_gregorian_fixed_in_year(d: CommonDate)
    requires
        gregorian_error(d) is None,
    ensures
        gregorian_prior_elapsed(d.year as int) < gregorian_fixed(d) <= gregorian_prior_elapsed(
            d.year as int,
        ) + solar_year_length(gregorian_leap(d.year as int)),
{
    lemma_solar_day_of_year_bounds(gregorian_leap(d.year as int), d.month as int, d.day as int);
}

/// Different valid Gregorian dates have different day counts.
pub proof fn lemma_gregorian_fixed_injective(d1: CommonDate, d2: CommonDate)
    requires
        gregorian_error(d1) is None,
        gregorian_error(d2) is None,
        gregorian_fixed(d1) == gregorian_fixed(d2),
    ensures
        d1 == d2,
{
    lemma_gregorian_fixed_in_year(d1);
    lemma_gregorian_fixed_in_year(d2);
    if d1.year < d2.year {
        lemma_gregorian_prior_monotone(d1.year as int, d2.year as int);
    } else if d2.year < d1.year {
        lemma_gregorian_prior_monotone(d2.year as int, d1.year as int);
    }
    lemma_solar_day_of_year_injective(
        gregorian_leap(d1.year as int),
        d1.month as int,
        d1.day as int,
        d2.month as int,
        d2.day as int,
    );
}

/// A valid Gregorian date is the only valid date with its year and day of year, so building
/// a date from the year and day of year of a date gives that date back.
pub proof fn law_gregorian_ordinal_roundtrip(d1: CommonDate, d2: CommonDate)
    requires
        gregorian_error(d1) is None,
        gregorian_error(d2) is None,
        Gregorian::ordinal_of(d1) == Gregorian::ordinal_of(d2),
    ensures
        d1 == d2,
{
    lemma_solar_day_of_year_bounds(gregorian_leap(d1.year as int), d1.month as int, d1.day as int);
    lemma_solar_day_of_year_bounds(gregorian_leap(d2.year as int), d2.month as int, d2.day as int);
    lemma_solar_day_of_year_injective(
        gregorian_leap(d1.year as int),
        d1.month as int,
        d1.day as int,
        d2.month as int,
        d2.day as int,
    );
}

/// The date that `from_fixed` finds is the only one with that day count.
pub proof fn lemma_gregorian_from_fixed_unique(c: CommonDate, date: int)
    requires
        gregorian_error(c) is None,
        gregorian_fixed(c) == date,
    ensures
        gregorian_from_fixed(date) == c,
{
    let w = gregorian_from_fixed(date);
    assert(gregorian_error(w) is None && gregorian_fixed(w) == date);
    lemma_gregorian_fixed_injective(w, c);
}

/// The leap year rule, read off the remainder by 400.
pub proof fn lemma_leap_by_400(y: int)
    ensures
        gregorian_leap(y) == (y % 4 == 0 && y % 400 != 100 && y % 400 != 200 && y % 400 != 300),
{
    lemma_mod_mod(y, 4, 100);
    lemma_mod_mod(y, 100, 4);
    lemma_mod_mod(y, 4, 25);
    let r = y % 400;
    lemma_div_mod_parts(y, 400);
    lemma_div_mod_parts(r, 100);
    lemma_div_mod_parts(r, 4);
}

impl HasLeapYears for Gregorian {
    open spec fn leap_spec(year: int) -> bool {
        gregorian_leap(year)
    }

    fn is_leap(year: i32) -> (r: bool) {
        let m4 = modulus(year as i64, 4);
        let m400 = modulus(year as i64, 400);
        proof {
            lemma_leap_by_400(year as int);
            assert(Self::leap_spec(year as int) == gregorian_leap(year as int));
        }
        m4 == 0 && m400 != 100 && m400 != 200 && m400 != 300
    }
}

impl ToFromCommonDate for Gregorian {
    closed spec fn common_view(self) -> CommonDate {
        self.0
    }

    open spec fn ymd_error(d: CommonDate) -> Option<CalendarError> {
        gregorian_error(d)
    }

    open spec fn year_start_spec(year: int) -> CommonDate {
        CommonDate { year: year as i32, month: 1, day: 1 }
    }

    open spec fn year_end_spec(year: int) -> CommonDate {
        CommonDate { year: year as i32, month: 12, day: 31 }
    }

    fn to_common_date(self) -> (r: CommonDate) {
        proof {
            use_type_invariant(&self);
        }
        self.0
    }

    fn from_common_date_unchecked(d: CommonDate) -> (r: Self) {
        Gregorian(d)
    }

    fn valid_ymd(date: CommonDate) -> (r: Result<(), CalendarError>) {
        let month_opt = GregorianMonth::from_u8(date.month);
        match month_opt {
            None => Err(CalendarError::InvalidMonth),
            Some(m) => {
                if date.day < 1 {
                    Err(CalendarError::InvalidDay)
                } else if date.day > Gregorian::month_length(date.year, m) {
                    Err(CalendarError::InvalidDay)
                } else {
                    Ok(())
                }
            },
        }
    }

    fn year_start_date(year: i32) -> (r: CommonDate) {
        CommonDate::new(year, 1, 1)
    }

    fn year_end_date(year: i32) -> (r: CommonDate) {
        let m = GregorianMonth::December;
        CommonDate::new(year, m.to_u8(), Gregorian::month_length(year, m))
    }
}

impl ToFromOrdinalDate for Gregorian {
    open spec fn ordinal_error(ord: OrdinalDate) -> Option<CalendarError> {
        if gregorian_ordinal_valid(ord) {
            None
        } else {
            Some(CalendarError::InvalidDayOfYear)
        }
    }

    open spec fn ordinal_of(d: CommonDate) -> OrdinalDate {
        OrdinalDate { year: d.year, day_of_year: gregorian_day_of_year(d) as u16 }
    }

    open spec fn fixed_of_ordinal(ord: OrdinalDate) -> int {
        gregorian_prior_elapsed(ord.year as int) + ord.day_of_year
    }

    fn valid_ordinal(ord: OrdinalDate) -> (r: Result<(), CalendarError>) {
        let correction: u16 = if Gregorian::is_leap(ord.year) {
            1
        } else {
            0
        };
        if ord.day_of_year > 0 && ord.day_of_year <= (365 + correction) {
            Ok(())
        } else {
            Err(CalendarError::InvalidDayOfYear)
        }
    }

    fn ordinal_from_fixed(fixed_date: i64) -> (r: OrdinalDate) {
        let date = fixed_date;
        let epoch = Gregorian::epoch();
        let d0 = date - epoch;
        let n400 = div_floor(d0, (400 * 365) + 100 - 3);
        let d1 = mod_floor(d0, (400 * 365) + 100 - 3);
        let n100 = div_floor(d1, (365 * 100) + 25 - 1);
        let d2 = mod_floor(d1, (365 * 100) + 25 - 1);
        let n4 = div_floor(d2, 365 * 4 + 1);
        let d3 = mod_floor(d2, 365 * 4 + 1);
        let n1 = div_floor(d3, 365);
        proof {
            lemma_div_mod_parts(d0 as int, 146097);
            lemma_div_mod_parts(d1 as int, 36524);
            lemma_div_mod_parts(d2 as int, 1461);
            lemma_div_mod_parts(d3 as int, 365);
            lemma_div_monotone(d0 as int, FIXED_MAX as int, 146097);
            lemma_div_monotone(FIXED_MIN - 1, d0 as int, 146097);
            lemma_div_in_range(FIXED_MAX as int, 146097, 117534);
            lemma_div_in_range(FIXED_MIN - 1, 146097, -117535);
            if n100 > 4 {
                lemma_div_monotone(146097, d1 as int, 36524);
                lemma_div_in_range(146097, 36524, 4);
            }
            if n4 > 24 {
                lemma_div_monotone(36525, d2 as int, 1461);
                lemma_div_in_range(36525, 1461, 25);
            }
            if n1 > 4 {
                lemma_div_monotone(1825, d3 as int, 365);
                lemma_div_in_range(1825, 365, 5);
            }
        }
        let year = (400 * n400) + (100 * n100) + (4 * n4) + n1;
        if n100 == 4 || n1 == 4 {
            proof {
                if n100 == 4 {
                    lemma_gregorian_prior_cycles(n400 + 1, 0, 0, 0);
                    lemma_gregorian_prior_step(year as int);
                    lemma_gregorian_prior_cycles(n400 as int, 3, 24, 3);
                    lemma_gregorian_prior_step(year as int - 1);
                    lemma_mod_multiples_basic(n400 + 1, 400);
                } else {
                    lemma_gregorian_prior_cycles(n400 as int, n100 as int, n4 as int, 3);
                    lemma_div_in_range(year as int, 4, 100 * n400 + 25 * n100 + n4 + 1);
                    lemma_div_in_range(year as int, 100, 4 * n400 + n100);
                }
            }
            OrdinalDate { year: year as i32, day_of_year: 366 }
        } else {
            proof {
                lemma_gregorian_prior_cycles(n400 as int, n100 as int, n4 as int, n1 as int);
            }
            OrdinalDate { year: (year + 1) as i32, day_of_year: (mod_floor(d3, 365) + 1) as u16 }
        }
    }

    fn to_ordinal(self) -> (r: OrdinalDate)
        ensures
            Self::ordinal_error(r) is None,
    {
        proof {
            use_type_invariant(&self);
            lemma_solar_day_of_year_bounds(
                gregorian_leap(self.0.year as int),
                self.0.month as int,
                self.0.day as int,
            );
        }
        let leap = Gregorian::is_leap(self.0.year);
        OrdinalDate { year: self.0.year, day_of_year: solar_ordinal(leap, self.0.month, self.0.day) }
    }

    fn from_ordinal_unchecked(ord: OrdinalDate) -> (r: Self)
        ensures
            gregorian_error(r.common_view()) is None,
    {
        let leap = Gregorian::is_leap(ord.year);
        let (month, day) = solar_from_ordinal(leap, ord.day_of_year);
        let r = Gregorian(CommonDate { year: ord.year, month, day });
        proof {
            use_type_invariant(&r);
        }
        r
    }
}

impl Epoch for Gregorian {
    open spec fn epoch_spec() -> int {
        1
    }

    fn epoch() -> (r: i64) {
        assert(Self::epoch_spec() == 1);
        GREGORIAN_EPOCH_RD
    }
}

impl ToFixed for Gregorian {
    open spec fn fixed_spec(self) -> int {
        gregorian_fixed(self.common_view())
    }

    fn to_fixed(self) -> (r: i64) {
        proof {
            use_type_invariant(&self);
        }
        let offset_prior = Gregorian::prior_elapsed_days(self.0.year);
        let ord = self.to_ordinal().day_of_year as i64;
        offset_prior + ord
    }
}

impl FromFixed for Gregorian {
    closed spec fn from_fixed_spec(date: int) -> Self {
        Gregorian(gregorian_from_fixed(date))
    }

    fn from_fixed(date: i64) -> (r: Self)
        ensures
            r.common_view() == gregorian_from_fixed(date as int),
    {
        let ord = Gregorian::ordinal_from_fixed(date);
        let r = Gregorian::from_ordinal_unchecked(ord);
        proof {
            use_type_invariant(&r);
            lemma_gregorian_from_fixed_unique(r.0, date as int);
        }
        r
    }
}

impl Quarter for Gregorian {
    open spec fn quarter_spec(self) -> int {
        month_quarter(self.common_view().month as int)
    }

    fn quarter(self) -> (r: u8) {
        proof {
            use_type_invariant(&self);
        }
        let m: u8 = self.to_common_date().month;
        let r: u8 = (m - 1) / 3 + 1;
        assert(self.quarter_spec() == month_quarter(m as int));
        r
    }
}

} // verus!

verus! {

/// Splits a day count into a Gregorian year and a day of that year.
proof fn lemma_gregorian_year_of_fixed(date: int) -> (r: (int, int))
    ensures
        1 <= r.1 <= solar_year_length(gregorian_leap(r.0)),
        gregorian_prior_elapsed(r.0) + r.1 == date,
{
    let d0 = date - 1;
    let n400 = d0 / 146097;
    let d1 = d0 % 146097;
    let n100 = d1 / 36524;
    let d2 = d1 % 36524;
    let n4 = d2 / 1461;
    let d3 = d2 % 1461;
    let n1 = d3 / 365;
    lemma_div_mod_parts(d0, 146097);
    lemma_div_mod_parts(d1, 36524);
    lemma_div_mod_parts(d2, 1461);
    lemma_div_mod_parts(d3, 365);
    if n100 > 4 {
        lemma_div_monotone(146097, d1, 36524);
        lemma_div_in_range(146097, 36524, 4);
    }
    if n4 > 24 {
        lemma_div_monotone(36525, d2, 1461);
        lemma_div_in_range(36525, 1461, 25);
    }
    if n1 > 4 {
        lemma_div_monotone(1825, d3, 365);
        lemma_div_in_range(1825, 365, 5);
    }
    let year = 400 * n400 + 100 * n100 + 4 * n4 + n1;
    if n100 == 4 || n1 == 4 {
        if n100 == 4 {
            lemma_gregorian_prior_cycles(n400 + 1, 0, 0, 0);
            lemma_gregorian_prior_step(year);
            lemma_gregorian_prior_cycles(n400, 3, 24, 3);
            lemma_gregorian_prior_step(year - 1);
            lemma_mod_multiples_basic(n400 + 1, 400);
        } else {
            lemma_gregorian_prior_cycles(n400, n100, n4, 3);
            lemma_div_in_range(year, 4, 100 * n400 + 25 * n100 + n4 + 1);
            lemma_div_in_range(year, 100, 4 * n400 + n100);
        }
        (year, 366)
    } else {
        lemma_gregorian_prior_cycles(n400, n100, n4, n1);
        (year + 1, d3 % 365 + 1)
    }
}

/// Finds the month and day of a day of year in a twelve-month solar year.
pub proof fn lemma_solar_month_day_exists(leap: bool, doy: int) -> (r: (int, int))
    requires
        1 <= doy <= solar_year_length(leap),
    ensures
        1 <= r.0 <= 12,
        1 <= r.1 <= solar_month_length(leap, r.0),
        solar_days_before_month(leap, r.0) + r.1 == doy,
{
    lemma_solar_month_of_day(leap, doy);
    let c = if doy < 60 + (if leap {
        1int
    } else {
        0int
    }) {
        0int
    } else if leap {
        1int
    } else {
        2int
    };
    let m = (12 * (doy - 1 + c) + 373) / 367;
    (m, doy - solar_days_before_month(leap, m))
}

/// Every day count within the range of `i32` years is the day count of exactly one
/// Gregorian date, and `gregorian_from_fixed` finds it.
pub proof fn law_gregorian_fixed_roundtrip(date: int)
    requires
        fixed_in_bounds(date),
    ensures
        gregorian_error(gregorian_from_fixed(date)) is None,
        gregorian_fixed(gregorian_from_fixed(date)) == date,
        -50000000 <= gregorian_from_fixed(date).year <= 50000000,
{
    let (y, doy) = lemma_gregorian_year_of_fixed(date);
    let d0 = date - 1;
    lemma_div_monotone(d0, FIXED_MAX as int, 146097);
    lemma_div_monotone(FIXED_MIN - 1, d0, 146097);
    lemma_div_in_range(FIXED_MAX as int, 146097, 117534);
    lemma_div_in_range(FIXED_MIN - 1, 146097, -117535);
    lemma_gregorian_year_bounds(date, y);
    let (m, d) = lemma_solar_month_day_exists(gregorian_leap(y), doy);
    let c = CommonDate { year: y as i32, month: m as u8, day: d as u8 };
    lemma_gregorian_from_fixed_unique(c, date);
}

/// A day count within the supported range lies in a year that fits in `i32`.
pub proof fn lemma_gregorian_year_bounds(date: int, y: int)
    requires
        fixed_in_bounds(date),
        gregorian_prior_elapsed(y) < date <= gregorian_prior_elapsed(y) + solar_year_length(
            gregorian_leap(y),
        ),
    ensures
        -50000000 <= y <= 50000000,
{
    if y > 50000000 {
        lemma_gregorian_prior_monotone(50000000, y);
        lemma_div_in_range(49999999, 4, 12499999);
        lemma_div_in_range(49999999, 100, 499999);
        lemma_div_in_range(49999999, 400, 124999);
    }
    if y < -50000000 {
        lemma_gregorian_prior_monotone(y + 1, -50000000);
        lemma_gregorian_prior_step(y);
        lemma_div_in_range(-50000001, 4, -12500001);
        lemma_div_in_range(-50000001, 100, -500001);
        lemma_div_in_range(-50000001, 400, -125001);
    }
}

/// Converting a valid Gregorian date to its day count and back gives the same date.
pub proof fn law_gregorian_date_roundtrip(c: CommonDate)
    requires
        gregorian_error(c) is None,
    ensures
        gregorian_from_fixed(gregorian_fixed(c)) == c,
{
    lemma_gregorian_from_fixed_unique(c, gregorian_fixed(c));
}

} // verus!

verus! {

/// Shifting a year by whole 400-year cycles shifts the day count by whole cycles of days
/// and keeps the leap years.
pub proof fn lemma_gregorian_cycle_shift(y: int, k: int)
    ensures
        gregorian_prior_elapsed(y + 400 * k) == gregorian_prior_elapsed(y) + 146097 * k,
        gregorian_leap(y + 400 * k) == gregorian_leap(y),
{
    lemma_div_mod_parts(y - 1, 4);
    lemma_div_mod_parts(y - 1, 100);
    lemma_div_mod_parts(y - 1, 400);
    lemma_div_in_range(y - 1 + 400 * k, 4, (y - 1) / 4 + 100 * k);
    lemma_div_in_range(y - 1 + 400 * k, 100, (y - 1) / 100 + 4 * k);
    lemma_div_in_range(y - 1 + 400 * k, 400, (y - 1) / 400 + k);
    lemma_div_mod_parts(y, 4);
    lemma_div_mod_parts(y, 100);
    lemma_div_mod_parts(y, 400);
    lemma_div_in_range(y + 400 * k, 4, y / 4 + 100 * k);
    lemma_div_in_range(y + 400 * k, 100, y / 100 + 4 * k);
    lemma_div_in_range(y + 400 * k, 400, y / 400 + k);
}

/// The number of days before a year, for years beyond the range of `i32`.
pub(crate) fn prior_elapsed_days_wide(year: i64) -> (r: i64)
    requires
        -0x1_0000_0000_0000 <= year <= 0x1_0000_0000_0000,
    ensures
        r == gregorian_prior_elapsed(year as int),
{
    let offset_y = 365 * (year - 1);
    let offset_leap = div_floor(year - 1, 4) - div_floor(year - 1, 100) + div_floor(year - 1, 400);
    offset_y + offset_leap
}

/// The leap year rule for years beyond the range of `i32`.
pub(crate) fn is_leap_wide(year: i64) -> (r: bool)
    requires
        -0x1_0000_0000_0000 <= year <= 0x1_0000_0000_0000,
    ensures
        r == gregorian_leap(year as int),
{
    let m4 = mod_floor(year, 4);
    let m400 = mod_floor(year, 400);
    proof {
        lemma_leap_by_400(year as int);
    }
    m4 == 0 && m400 != 100 && m400 != 200 && m400 != 300
}

impl CommonWeekOfYear for Gregorian {
    open spec fn fixed_of_date(d: CommonDate) -> int {
        gregorian_fixed(d)
    }

    proof fn lemma_fixed_of_date(x: Self) {
    }
}


impl CalculatedBounds for Gregorian {
    open spec fn valid_date(self) -> bool {
        gregorian_error(self.common_view()) is None
    }

    proof fn lemma_from_fixed_keeps_day(date: int) {
        law_gregorian_fixed_roundtrip(date);
    }

    proof fn lemma_to_fixed_and_back(x: Self) {
        law_gregorian_date_roundtrip(x.common_view());
    }
}

/// The calendar repeats every 400 years: the day 146097 days later has the same month and
/// day, 400 years later.
pub proof fn law_gregorian_cycle(date: int)
    requires
        fixed_in_bounds(date),
    ensures
        ({
            let g = gregorian_from_fixed(date);
            gregorian_from_fixed(date + 146097) == CommonDate {
                year: (g.year + 400) as i32,
                month: g.month,
                day: g.day,
            }
        }),
{
    law_gregorian_fixed_roundtrip(date);
    let g = gregorian_from_fixed(date);
    lemma_gregorian_cycle_shift(g.year as int, 1);
    let c = CommonDate { year: (g.year + 400) as i32, month: g.month, day: g.day };
    assert(gregorian_fixed(c) == date + 146097);
    lemma_gregorian_from_fixed_unique(c, date + 146097);
}


impl GuaranteedMonth<GregorianMonth> for Gregorian {
    open spec fn month_number(m: GregorianMonth) -> int {
        gregorian_month_number(m)
    }

    fn month(self) -> (r: GregorianMonth) {
        Gregorian::month(self)
    }
}

/// A date's quarter holds its month: January to March (the first three months) in the
/// first, the next three in the second, then the third, and the last three in the fourth.
pub proof fn law_gregorian_quarter(x: Gregorian)
    ensures
        month_in_quarter(x.common_view().month as int, x.quarter_spec()),
{
}

} // verus!
