use crate::calendar::arith::lemma_div_in_range;
use crate::calendar::arith::lemma_div_mod_parts;
use crate::calendar::gregorian::Gregorian;
use crate::calendar::prelude::HasIntercalaryDays;
use crate::calendar::prelude::HasLeapYears;
use crate::calendar::prelude::Perennial;
use crate::calendar::prelude::Quarter;
use crate::calendar::prelude::ToFromCommonDate;
use crate::common::date::CommonDate;
use crate::common::error::CalendarError;
use crate::common::math::adjusted_remainder;
use crate::common::math::adjusted_remainder_spec;
use crate::common::math::div_floor;
use crate::common::math::modulus;
use crate::day_count::fixed::fixed_in_bounds;
use crate::day_count::fixed::Epoch;
use crate::day_count::fixed::FromFixed;
use crate::day_count::fixed::ToFixed;
use crate::day_count::fixed::CalculatedBounds;
use crate::calendar::gregorian::gregorian_error;
use crate::calendar::gregorian::gregorian_fixed;
use crate::calendar::gregorian::gregorian_from_fixed;
use crate::calendar::gregorian::gregorian_leap;
use crate::calendar::gregorian::gregorian_prior_elapsed;
use crate::calendar::gregorian::lemma_gregorian_from_fixed_unique;
use crate::calendar::gregorian::solar_days_before_month;
use crate::calendar::prelude::TryMonth;
use crate::calendar::prelude::month_in_quarter;
use vstd::prelude::*;

verus! {

/// The Gregorian year of the epoch of the French Revolutionary calendar, September 22, 1792.
pub const FRENCH_EPOCH_YEAR: i32 = 1792;

/// The Gregorian month of the epoch.
pub const FRENCH_EPOCH_MONTH: u8 = 9;

/// The Gregorian day of month of the epoch.
pub const FRENCH_EPOCH_DAY: u8 = 22;

/// The month number that the complementary days carry.
pub const FRENCH_NON_MONTH: u8 = 13;

/// A month of the French Revolutionary calendar.
#[derive(Debug, Clone, Copy, PartialEq, Eq, PartialOrd, Ord, Hash, Structural)]
pub enum FrenchRevMonth {
    Vendemiaire,
    Brumaire,
    Frimaire,
    Nivose,
    Pluviose,
    Ventose,
    Germinal,
    Floreal,
    Prairial,
    Messidor,
    Thermidor,
    Fructidor,
}

/// The number of each value of `FrenchRevMonth`.
pub open spec fn french_rev_month_number(m: FrenchRevMonth) -> int {
    match m {
        FrenchRevMonth::Vendemiaire => 1,
        FrenchRevMonth::Brumaire => 2,
        FrenchRevMonth::Frimaire => 3,
        FrenchRevMonth::Nivose => 4,
        FrenchRevMonth::Pluviose => 5,
        FrenchRevMonth::Ventose => 6,
        FrenchRevMonth::Germinal => 7,
        FrenchRevMonth::Floreal => 8,
        FrenchRevMonth::Prairial => 9,
        FrenchRevMonth::Messidor => 10,
        FrenchRevMonth::Thermidor => 11,
        FrenchRevMonth::Fructidor => 12,
    }
}

impl FrenchRevMonth {
    /// The number of the value.
    pub fn to_u8(self) -> (r: u8)
        ensures
            r == french_rev_month_number(self),
    {
        match self {
            FrenchRevMonth::Vendemiaire => 1,
            FrenchRevMonth::Brumaire => 2,
            FrenchRevMonth::Frimaire => 3,
            FrenchRevMonth::Nivose => 4,
            FrenchRevMonth::Pluviose => 5,
            FrenchRevMonth::Ventose => 6,
            FrenchRevMonth::Germinal => 7,
            FrenchRevMonth::Floreal => 8,
            FrenchRevMonth::Prairial => 9,
            FrenchRevMonth::Messidor => 10,
            FrenchRevMonth::Thermidor => 11,
            FrenchRevMonth::Fructidor => 12,
        }
    }

    /// The value with the given number, if there is one.
    pub fn from_u8(n: u8) -> (r: Option<FrenchRevMonth>)
        ensures
            1 <= n <= 12 ==> (r matches Some(m) && french_rev_month_number(m) == n),
            !(1 <= n <= 12) ==> r is None,
    {
        match n {
            1 => Some(FrenchRevMonth::Vendemiaire),
            2 => Some(FrenchRevMonth::Brumaire),
            3 => Some(FrenchRevMonth::Frimaire),
            4 => Some(FrenchRevMonth::Nivose),
            5 => Some(FrenchRevMonth::Pluviose),
            6 => Some(FrenchRevMonth::Ventose),
            7 => Some(FrenchRevMonth::Germinal),
            8 => Some(FrenchRevMonth::Floreal),
            9 => Some(FrenchRevMonth::Prairial),
            10 => Some(FrenchRevMonth::Messidor),
            11 => Some(FrenchRevMonth::Thermidor),
            12 => Some(FrenchRevMonth::Fructidor),
            _ => None,
        }
    }
}

/// A day of the ten-day week (decade) of the French Revolutionary calendar.
#[derive(Debug, Clone, Copy, PartialEq, Eq, PartialOrd, Ord, Hash, Structural)]
pub enum FrenchRevWeekday {
    Primidi,
    Duodi,
    Tridi,
    Quartidi,
    Quintidi,
    Sextidi,
    Septidi,
    Octidi,
    Nonidi,
    Decadi,
}

/// The number of each value of `FrenchRevWeekday`.
pub open spec fn french_rev_weekday_number(m: FrenchRevWeekday) -> int {
    match m {
        FrenchRevWeekday::Primidi => 1,
        FrenchRevWeekday::Duodi => 2,
        FrenchRevWeekday::Tridi => 3,
        FrenchRevWeekday::Quartidi => 4,
        FrenchRevWeekday::Quintidi => 5,
        FrenchRevWeekday::Sextidi => 6,
        FrenchRevWeekday::Septidi => 7,
        FrenchRevWeekday::Octidi => 8,
        FrenchRevWeekday::Nonidi => 9,
        FrenchRevWeekday::Decadi => 10,
    }
}

impl FrenchRevWeekday {
    /// The number of the value.
    pub fn to_u8(self) -> (r: u8)
        ensures
            r == french_rev_weekday_number(self),
    {
        match self {
            FrenchRevWeekday::Primidi => 1,
            FrenchRevWeekday::Duodi => 2,
            FrenchRevWeekday::Tridi => 3,
            FrenchRevWeekday::Quartidi => 4,
            FrenchRevWeekday::Quintidi => 5,
            FrenchRevWeekday::Sextidi => 6,
            FrenchRevWeekday::Septidi => 7,
            FrenchRevWeekday::Octidi => 8,
            FrenchRevWeekday::Nonidi => 9,
            FrenchRevWeekday::Decadi => 10,
        }
    }

    /// The value with the given number, if there is one.
    pub fn from_u8(n: u8) -> (r: Option<FrenchRevWeekday>)
        ensures
            1 <= n <= 10 ==> (r matches Some(m) && french_rev_weekday_number(m) == n),
            !(1 <= n <= 10) ==> r is None,
    {
        match n {
            1 => Some(FrenchRevWeekday::Primidi),
            2 => Some(FrenchRevWeekday::Duodi),
            3 => Some(FrenchRevWeekday::Tridi),
            4 => Some(FrenchRevWeekday::Quartidi),
            5 => Some(FrenchRevWeekday::Quintidi),
            6 => Some(FrenchRevWeekday::Sextidi),
            7 => Some(FrenchRevWeekday::Septidi),
            8 => Some(FrenchRevWeekday::Octidi),
            9 => Some(FrenchRevWeekday::Nonidi),
            10 => Some(FrenchRevWeekday::Decadi),
            _ => None,
        }
    }
}

/// A complementary day at the end of a French Revolutionary year.
#[derive(Debug, Clone, Copy, PartialEq, Eq, PartialOrd, Ord, Hash, Structural)]
pub enum Sansculottide {
    Vertu,
    Genie,
    Travail,
    Opinion,
    Recompense,
    Revolution,
}

/// The number of each value of `Sansculottide`.
pub open spec fn sansculottide_number(m: Sansculottide) -> int {
    match m {
        Sansculottide::Vertu => 1,
        Sansculottide::Genie => 2,
        Sansculottide::Travail => 3,
        Sansculottide::Opinion => 4,
        Sansculottide::Recompense => 5,
        Sansculottide::Revolution => 6,
    }
}

impl Sansculottide {
    /// The number of the value.
    pub fn to_u8(self) -> (r: u8)
        ensures
            r == sansculottide_number(self),
    {
        match self {
            Sansculottide::Vertu => 1,
            Sansculottide::Genie => 2,
            Sansculottide::Travail => 3,
            Sansculottide::Opinion => 4,
            Sansculottide::Recompense => 5,
            Sansculottide::Revolution => 6,
        }
    }

    /// The value with the given number, if there is one.
    pub fn from_u8(n: u8) -> (r: Option<Sansculottide>)
        ensures
            1 <= n <= 6 ==> (r matches Some(m) && sansculottide_number(m) == n),
            !(1 <= n <= 6) ==> r is None,
    {
        match n {
            1 => Some(Sansculottide::Vertu),
            2 => Some(Sansculottide::Genie),
            3 => Some(Sansculottide::Travail),
            4 => Some(Sansculottide::Opinion),
            5 => Some(Sansculottide::Recompense),
            6 => Some(Sansculottide::Revolution),
            _ => None,
        }
    }
}


/// The day count of the epoch: September 22, 1792 in the Gregorian calendar.
pub open spec fn french_epoch() -> int {
    654415
}

/// The year that the leap rule is applied to: shifted by one year in the adjusted variant.
pub open spec fn french_rule_year(l: bool, year: int) -> int {
    if l {
        year + 1
    } else {
        year
    }
}

/// The arithmetic leap year rule: every fourth year, except three centuries out of four,
/// and except every 4000th year.
pub open spec fn french_leap(l: bool, year: int) -> bool {
    let f = french_rule_year(l, year);
    f % 4 == 0 && f % 400 != 100 && f % 400 != 200 && f % 400 != 300 && f % 4000 != 0
}

/// The number of leap days before a year.
pub open spec fn french_leap_days(l: bool, year: int) -> int {
    let n = french_rule_year(l, year) - 1;
    n / 4 - n / 100 + n / 400 - n / 4000
}

/// The number of days before a year, counted from the epoch of the day count.
pub open spec fn french_prior(l: bool, year: int) -> int {
    french_epoch() - 1 + 365 * (year - 1) + french_leap_days(l, year)
}

/// The number of complementary days (sansculottides) in a year.
pub open spec fn french_complementary_count(l: bool, year: int) -> int {
    if french_leap(l, year) {
        6
    } else {
        5
    }
}

/// Why a year, month and day is not a date: twelve months of 30 days, then the
/// complementary days as month 13.
pub open spec fn french_error(l: bool, d: CommonDate) -> Option<CalendarError> {
    if d.month < 1 || d.month > 13 {
        Some(CalendarError::InvalidMonth)
    } else if d.day < 1 {
        Some(CalendarError::InvalidDay)
    } else if d.month < 13 && d.day > 30 {
        Some(CalendarError::InvalidDay)
    } else if d.month == 13 && d.day > french_complementary_count(l, d.year as int) {
        Some(CalendarError::InvalidDay)
    } else {
        None
    }
}

/// The day count of a French Revolutionary date.
pub open spec fn french_fixed(l: bool, d: CommonDate) -> int {
    french_prior(l, d.year as int) + 30 * (d.month - 1) + d.day
}

/// The French Revolutionary date of a day count.
pub open spec fn french_from_fixed(l: bool, date: int) -> CommonDate {
    choose|c: CommonDate| french_error(l, c) is None && #[trigger] french_fixed(l, c) == date
}

/// Each year adds 365 days, and one more in leap years.
pub proof fn lemma_french_prior_step(l: bool, year: int)
    ensures
        french_prior(l, year + 1) == french_prior(l, year) + 365 + french_complementary_count(
            l,
            year,
        ) - 5,
{
    let f = french_rule_year(l, year);
    assert(french_rule_year(l, year + 1) == f + 1);
    crate::calendar::gregorian::lemma_div_step(f - 1, 4);
    crate::calendar::gregorian::lemma_div_step(f - 1, 100);
    crate::calendar::gregorian::lemma_div_step(f - 1, 400);
    crate::calendar::gregorian::lemma_div_step(f - 1, 4000);
    vstd::arithmetic::div_mod::lemma_mod_mod(f, 4, 25);
    vstd::arithmetic::div_mod::lemma_mod_mod(f, 100, 4);
    vstd::arithmetic::div_mod::lemma_mod_mod(f, 400, 10);
}

/// The leap days before a year stay within a few days of the mean: `4000` times them is
/// `969` times the rule year's predecessor, give or take under 8000.
proof fn lemma_french_leap_days_near(l: bool, year: int)
    ensures
        969 * (french_rule_year(l, year) - 1) - 6990 <= 4000 * french_leap_days(l, year) <= 969 * (
        french_rule_year(l, year) - 1) + 7959,
{
    let n = french_rule_year(l, year) - 1;
    lemma_div_mod_parts(n, 4);
    lemma_div_mod_parts(n, 100);
    lemma_div_mod_parts(n, 400);
    lemma_div_mod_parts(n, 4000);
}

/// Later years start later.
pub proof fn lemma_french_prior_monotone(l: bool, a: int, b: int)
    requires
        a < b,
    ensures
        french_prior(l, a) + 360 + french_complementary_count(l, a) <= french_prior(l, b),
    decreases b - a,
{
    lemma_french_prior_step(l, a);
    if a + 1 < b {
        lemma_french_prior_monotone(l, a + 1, b);
    }
}

/// Different valid dates have different day counts.
pub proof fn lemma_french_fixed_injective(l: bool, d1: CommonDate, d2: CommonDate)
    requires
        french_error(l, d1) is None,
        french_error(l, d2) is None,
        french_fixed(l, d1) == french_fixed(l, d2),
    ensures
        d1 == d2,
{
    if d1.year < d2.year {
        lemma_french_prior_monotone(l, d1.year as int, d2.year as int);
    } else if d2.year < d1.year {
        lemma_french_prior_monotone(l, d2.year as int, d1.year as int);
    }
}

/// The date that `french_from_fixed` finds is the only one with that day count.
pub proof fn lemma_french_from_fixed_unique(l: bool, c: CommonDate, date: int)
    requires
        french_error(l, c) is None,
        french_fixed(l, c) == date,
    ensures
        french_from_fixed(l, date) == c,
{
    let w = french_from_fixed(l, date);
    assert(french_error(l, c) is None && french_fixed(l, c) == date);
    lemma_french_fixed_injective(l, w, c);
}

/// The year estimate `floor(4000 * (date - epoch + 2) / 1460969) + 1` is the year of the
/// day or the year after it.
proof fn lemma_french_year_estimate(l: bool, date: int, approx: int)
    requires
        fixed_in_bounds(date),
        approx == (4000 * (date - french_epoch() + 2)) / 1460969 + 1,
    ensures
        french_prior(l, approx - 1) < date <= french_prior(l, approx + 1),
        -100000000 <= approx <= 100000000,
{
    let x = date - french_epoch();
    let a = approx - 1;
    lemma_div_mod_parts(4000 * (x + 2), 1460969);
    lemma_french_leap_days_near(l, a);
    lemma_french_leap_days_near(l, a + 2);
}

/// Every day count within the supported range is the day count of exactly one
/// French Revolutionary date, and `french_from_fixed` finds it.
pub proof fn law_french_fixed_roundtrip(l: bool, date: int)
    requires
        fixed_in_bounds(date),
    ensures
        french_error(l, french_from_fixed(l, date)) is None,
        french_fixed(l, french_from_fixed(l, date)) == date,
{
    let approx = (4000 * (date - french_epoch() + 2)) / 1460969 + 1;
    lemma_french_year_estimate(l, date, approx);
    lemma_french_prior_step(l, approx - 1);
    lemma_french_prior_step(l, approx);
    let year = if date <= french_prior(l, approx) {
        approx - 1
    } else {
        approx
    };
    let doy = date - french_prior(l, year);
    lemma_div_mod_parts(doy - 1, 30);
    let month = (doy - 1) / 30 + 1;
    if month > 13 {
        lemma_div_in_range(doy - 1, 30, 12);
    }
    let c = CommonDate { year: year as i32, month: month as u8, day: (doy - 30 * (month - 1)) as u8 };
    lemma_french_from_fixed_unique(l, c, date);
}

/// Converting a valid date to its day count and back gives the same date.
pub proof fn law_french_date_roundtrip(l: bool, c: CommonDate)
    requires
        french_error(l, c) is None,
    ensures
        french_from_fixed(l, french_fixed(l, c)) == c,
{
    lemma_french_from_fixed_unique(l, c, french_fixed(l, c));
}

/// The weekday with a number from 1 to 10.
pub open spec fn french_weekday_of_number(n: int) -> FrenchRevWeekday {
    if n == 1 {
        FrenchRevWeekday::Primidi
    } else if n == 2 {
        FrenchRevWeekday::Duodi
    } else if n == 3 {
        FrenchRevWeekday::Tridi
    } else if n == 4 {
        FrenchRevWeekday::Quartidi
    } else if n == 5 {
        FrenchRevWeekday::Quintidi
    } else if n == 6 {
        FrenchRevWeekday::Sextidi
    } else if n == 7 {
        FrenchRevWeekday::Septidi
    } else if n == 8 {
        FrenchRevWeekday::Octidi
    } else if n == 9 {
        FrenchRevWeekday::Nonidi
    } else {
        FrenchRevWeekday::Decadi
    }
}

/// The complementary day with a number from 1 to 6.
pub open spec fn sansculottide_of_number(n: int) -> Sansculottide {
    if n == 1 {
        Sansculottide::Vertu
    } else if n == 2 {
        Sansculottide::Genie
    } else if n == 3 {
        Sansculottide::Travail
    } else if n == 4 {
        Sansculottide::Opinion
    } else if n == 5 {
        Sansculottide::Recompense
    } else {
        Sansculottide::Revolution
    }
}

/// Represents a date in the arithmetic French Revolutionary calendar.
///
/// `L` selects the leap year rule: `true` applies the rule to the year after, which keeps
/// the known dates of the Revolution right; `false` applies it to the year itself.
#[derive(Debug, Clone, Copy, PartialEq, Eq)]
pub struct FrenchRevArith<const L: bool>(CommonDate);

impl<const L: bool> FrenchRevArith<L> {
    #[verifier::type_invariant]
    spec fn valid(self) -> bool {
        french_error(L, self.0) is None
    }

    /// Returns `L`: whether the leap year rule is shifted by one year.
    pub fn is_adjusted(self) -> (r: bool)
        ensures
            r == L,
    {
        L
    }

    fn count_complementary(f_year: i32) -> (r: u8)
        ensures
            r == french_complementary_count(L, f_year as int),
    {
        if Self::is_leap(f_year) {
            6
        } else {
            5
        }
    }

    /// The month of the date, or `None` for the complementary days.
    pub fn try_month(self) -> (r: Option<FrenchRevMonth>)
        ensures
            self.common_view().month == 13 ==> r is None,
            self.common_view().month != 13 ==> (r matches Some(m) && french_rev_month_number(m)
                == self.common_view().month),
    {
        proof {
            use_type_invariant(&self);
        }
        FrenchRevMonth::from_u8(self.0.month)
    }
}

impl<const L: bool> HasLeapYears for FrenchRevArith<L> {
    open spec fn leap_spec(year: int) -> bool {
        french_leap(L, year)
    }

    fn is_leap(year: i32) -> (r: bool) {
        let f_year: i64 = if L {
            year as i64 + 1
        } else {
            year as i64
        };
        let m4 = modulus(f_year, 4);
        let m400 = modulus(f_year, 400);
        let m4000 = modulus(f_year, 4000);
        let r = m4 == 0 && (m400 != 100 && m400 != 200 && m400 != 300) && m4000 != 0;
        assert(Self::leap_spec(year as int) == french_leap(L, year as int));
        r
    }
}

impl<const L: bool> Epoch for FrenchRevArith<L> {
    open spec fn epoch_spec() -> int {
        french_epoch()
    }

    fn epoch() -> (r: i64) {
        let d = CommonDate::new(FRENCH_EPOCH_YEAR, FRENCH_EPOCH_MONTH, FRENCH_EPOCH_DAY);
        let g = Gregorian::try_from_common_date(d);
        proof {
            assert(g is Ok);
        }
        let r = g.unwrap().to_fixed();
        assert(Self::epoch_spec() == 654415);
        r
    }
}

impl<const L: bool> ToFixed for FrenchRevArith<L> {
    open spec fn fixed_spec(self) -> int {
        french_fixed(L, self.common_view())
    }

    fn to_fixed(self) -> (r: i64) {
        let year = self.0.year as i64;
        let month = self.0.month as i64;
        let day = self.0.day as i64;
        let y_adj: i64 = if L {
            1
        } else {
            0
        };
        let n = year + y_adj - 1;
        let offset_e = Self::epoch() - 1;
        let offset_y = 365 * (year - 1);
        let offset_leap = div_floor(n, 4) - div_floor(n, 100) + div_floor(n, 400) - div_floor(
            n,
            4000,
        );
        proof {
            lemma_french_leap_days_near(L, year as int);
        }
        let offset_m = 30 * (month - 1);
        let offset_d = day;
        offset_e + offset_y + offset_leap + offset_m + offset_d
    }
}

impl<const L: bool> ToFromCommonDate for FrenchRevArith<L> {
    closed spec fn common_view(self) -> CommonDate {
        self.0
    }

    open spec fn ymd_error(d: CommonDate) -> Option<CalendarError> {
        french_error(L, d)
    }

    open spec fn year_start_spec(year: int) -> CommonDate {
        CommonDate { year: year as i32, month: 1, day: 1 }
    }

    open spec fn year_end_spec(year: int) -> CommonDate {
        CommonDate { year: year as i32, month: 13, day: french_complementary_count(L, year) as u8 }
    }

    fn to_common_date(self) -> (r: CommonDate) {
        proof {
            use_type_invariant(&self);
        }
        self.0
    }

    fn from_common_date_unchecked(d: CommonDate) -> (r: Self) {
        FrenchRevArith(d)
    }

    fn valid_ymd(date: CommonDate) -> (r: Result<(), CalendarError>) {
        if date.month < 1 || date.month > FRENCH_NON_MONTH {
            Err(CalendarError::InvalidMonth)
        } else if date.day < 1 {
            Err(CalendarError::InvalidDay)
        } else if date.month < FRENCH_NON_MONTH && date.day > 30 {
            Err(CalendarError::InvalidDay)
        } else if date.month == FRENCH_NON_MONTH && date.day > Self::count_complementary(
            date.year,
        ) {
            Err(CalendarError::InvalidDay)
        } else {
            Ok(())
        }
    }

    fn year_start_date(year: i32) -> (r: CommonDate) {
        CommonDate::new(year, 1, 1)
    }

    fn year_end_date(year: i32) -> (r: CommonDate) {
        CommonDate::new(year, FRENCH_NON_MONTH, Self::count_complementary(year))
    }
}

impl<const L: bool> FromFixed for FrenchRevArith<L> {
    closed spec fn from_fixed_spec(date: int) -> Self {
        FrenchRevArith(french_from_fixed(L, date))
    }

    fn from_fixed(fixed_date: i64) -> (r: Self)
        ensures
            r.common_view() == french_from_fixed(L, fixed_date as int),
    {
        let date = fixed_date;
        let epoch = Self::epoch();
        let approx = (div_floor(4000 * (date - epoch + 2), 1460969) + 1) as i32;
        proof {
            lemma_french_year_estimate(L, date as int, approx as int);
            lemma_french_prior_step(L, approx - 1);
            lemma_french_prior_step(L, approx as int);
        }
        let approx_start = FrenchRevArith::<L>(CommonDate::new(approx, 1, 1)).to_fixed();
        let year = if date < approx_start {
            approx - 1
        } else {
            approx
        };
        let year_start = FrenchRevArith::<L>(CommonDate::new(year, 1, 1)).to_fixed();
        proof {
            lemma_div_mod_parts(date - year_start, 30);
            if (date - year_start) / 30 > 12 {
                lemma_div_in_range(date - year_start, 30, 12);
            }
        }
        let month = (1 + div_floor(date - year_start, 30)) as u8;
        let month_start = FrenchRevArith::<L>(CommonDate::new(year, month, 1)).to_fixed();
        let day = (1 + date - month_start) as u8;
        let r = FrenchRevArith(CommonDate::new(year, month, day));
        proof {
            lemma_french_from_fixed_unique(L, r.0, date as int);
        }
        r
    }
}

impl<const L: bool> HasIntercalaryDays<Sansculottide> for FrenchRevArith<L> {
    open spec fn complementary_spec(self) -> Option<Sansculottide> {
        if self.common_view().month == 13 {
            Some(sansculottide_of_number(self.common_view().day as int))
        } else {
            None
        }
    }

    open spec fn complementary_count_spec(year: int) -> int {
        french_complementary_count(L, year)
    }

    fn complementary(self) -> (r: Option<Sansculottide>) {
        proof {
            use_type_invariant(&self);
        }
        let r = if self.0.month == FRENCH_NON_MONTH {
            Sansculottide::from_u8(self.0.day)
        } else {
            None
        };
        assert(r == self.complementary_spec());
        r
    }

    fn complementary_count(f_year: i32) -> (r: u8) {
        let r = Self::count_complementary(f_year);
        assert(r == Self::complementary_count_spec(f_year as int));
        r
    }
}

impl<const L: bool> Perennial<FrenchRevWeekday> for FrenchRevArith<L> {
    open spec fn weekday_spec(self) -> Option<FrenchRevWeekday> {
        if self.common_view().month == 13 {
            None
        } else {
            Some(french_weekday_of_number(adjusted_remainder_spec(self.common_view().day as int, 10)))
        }
    }

    open spec fn days_per_week_spec() -> int {
        10
    }

    open spec fn weeks_per_month_spec() -> int {
        3
    }

    fn weekday(self) -> (r: Option<FrenchRevWeekday>) {
        proof {
            use_type_invariant(&self);
        }
        let r = if self.0.month == FRENCH_NON_MONTH {
            None
        } else {
            FrenchRevWeekday::from_u8(adjusted_remainder(self.0.day as i64, 10) as u8)
        };
        assert(r == self.weekday_spec());
        r
    }

    fn days_per_week() -> (r: u8) {
        10
    }

    fn weeks_per_month() -> (r: u8) {
        3
    }
}

impl<const L: bool> Quarter for FrenchRevArith<L> {
    open spec fn quarter_spec(self) -> int {
        if self.common_view().month == 13 {
            4
        } else {
            (self.common_view().month - 1) / 3 + 1
        }
    }

    fn quarter(self) -> (r: u8) {
        proof {
            use_type_invariant(&self);
        }
        let m = self.to_common_date().month;
        if m == FRENCH_NON_MONTH {
            4
        } else {
            ((m - 1) / 3) + 1
        }
    }
}


impl<const L: bool> CalculatedBounds for FrenchRevArith<L> {
    open spec fn valid_date(self) -> bool {
        french_error(L, self.common_view()) is None
    }

    proof fn lemma_from_fixed_keeps_day(date: int) {
        law_french_fixed_roundtrip(L, date);
    }

    proof fn lemma_to_fixed_and_back(x: Self) {
        law_french_date_roundtrip(L, x.common_view());
    }
}

/// The Gregorian month in which each month of the Republic starts, with the earliest and
/// the latest day of that month on which it starts.
pub open spec fn french_month_gregorian_start(m: int) -> (int, int, int) {
    if m == 1 {
        (9, 22, 24)
    } else if m == 2 {
        (10, 22, 24)
    } else if m == 3 {
        (11, 21, 23)
    } else if m == 4 {
        (12, 21, 23)
    } else if m == 5 {
        (1, 20, 22)
    } else if m == 6 {
        (2, 19, 21)
    } else if m == 7 {
        (3, 21, 22)
    } else if m == 8 {
        (4, 20, 21)
    } else if m == 9 {
        (5, 20, 21)
    } else if m == 10 {
        (6, 19, 20)
    } else if m == 11 {
        (7, 19, 20)
    } else {
        (8, 18, 19)
    }
}

/// In the first hundred years of the Republic, each month starts within a few days of
/// the same Gregorian day every year: Vendemiaire on September 22 to 24, Brumaire on
/// October 22 to 24, and so on to Fructidor on August 18 or 19.
#[verifier::rlimit(60)]
pub proof fn law_french_months_align_to_gregorian(year: int, month: int)
    requires
        0 <= year < 100,
        1 <= month <= 12,
    ensures
        ({
            let g = gregorian_from_fixed(
                french_fixed(true, CommonDate { year: year as i32, month: month as u8, day: 1 }),
            );
            let e = french_month_gregorian_start(month);
            g.month == e.0 && e.1 <= g.day <= e.2
        }),
{
    let c = CommonDate { year: year as i32, month: month as u8, day: 1 };
    let f = french_fixed(true, c);
    let gy = if month <= 4 {
        1791 + year
    } else {
        1792 + year
    };
    let e = french_month_gregorian_start(month);
    let leap = gregorian_leap(gy);
    let day = f - gregorian_prior_elapsed(gy) - solar_days_before_month(leap, e.0);
    let g = CommonDate { year: gy as i32, month: e.0 as u8, day: day as u8 };
    lemma_div_mod_parts(year, 4);
    lemma_div_mod_parts(year, 100);
    lemma_div_mod_parts(year, 400);
    lemma_div_mod_parts(year, 4000);
    lemma_div_mod_parts(gy - 1, 4);
    lemma_div_mod_parts(gy - 1, 100);
    lemma_div_mod_parts(gy - 1, 400);
    lemma_div_mod_parts(gy, 4);
    lemma_div_mod_parts(gy, 100);
    lemma_div_mod_parts(gy, 400);
    assert(e.1 <= day <= e.2);
    assert(gregorian_error(g) is None);
    assert(gregorian_fixed(g) == f);
    lemma_gregorian_from_fixed_unique(g, f);
}

/// The two leap year rules put the same date at most one day apart.
pub proof fn law_french_variants_close(c: CommonDate)
    ensures
        -1 <= french_fixed(false, c) - french_fixed(true, c) <= 1,
{
    let y = c.year as int;
    crate::calendar::gregorian::lemma_div_step(y - 1, 4);
    crate::calendar::gregorian::lemma_div_step(y - 1, 100);
    crate::calendar::gregorian::lemma_div_step(y - 1, 400);
    crate::calendar::gregorian::lemma_div_step(y - 1, 4000);
    vstd::arithmetic::div_mod::lemma_mod_mod(y, 4, 25);
    vstd::arithmetic::div_mod::lemma_mod_mod(y, 100, 4);
    vstd::arithmetic::div_mod::lemma_mod_mod(y, 400, 10);
}


impl<const L: bool> TryMonth<FrenchRevMonth> for FrenchRevArith<L> {
    open spec fn month_number(m: FrenchRevMonth) -> int {
        french_rev_month_number(m)
    }

    open spec fn in_month(self) -> bool {
        self.common_view().month != 13
    }

    fn try_month(self) -> (r: Option<FrenchRevMonth>) {
        proof {
            use_type_invariant(&self);
        }
        FrenchRevArith::<L>::try_month(self)
    }
}

/// A date's quarter holds its month: January to March (the first three months) in the
/// first, the next three in the second, then the third, and the last three in the fourth.
/// The complementary days are in the fourth quarter.
pub proof fn law_french_rev_quarter<const L: bool>(x: FrenchRevArith<L>)
    ensures
        month_in_quarter(x.common_view().month as int, x.quarter_spec()),
        x.common_view().month as int == 13 ==> x.quarter_spec() == 4,
{
}

} // verus!
