use crate::calendar::arith::lemma_div_in_range;
use crate::calendar::arith::lemma_div_mod_parts;
use crate::calendar::arith::lemma_div_monotone;
use crate::calendar::gregorian::gregorian_month_number;
use crate::calendar::gregorian::lemma_solar_day_of_year_bounds;
use crate::calendar::gregorian::lemma_solar_day_of_year_injective;
use crate::calendar::gregorian::lemma_solar_month_day_exists;
use crate::calendar::gregorian::lemma_solar_months;
use crate::calendar::gregorian::month_quarter;
use crate::calendar::gregorian::solar_days_before_month;
use crate::calendar::gregorian::solar_error;
use crate::calendar::gregorian::solar_from_ordinal;
use crate::calendar::gregorian::solar_month_length;
use crate::calendar::gregorian::solar_ordinal;
use crate::calendar::gregorian::solar_year_length;
use crate::calendar::gregorian::Gregorian;
use crate::calendar::gregorian::GregorianMonth;
use crate::calendar::prelude::HasLeapYears;
use crate::calendar::prelude::Quarter;
use crate::calendar::prelude::CommonWeekOfYear;
use crate::calendar::prelude::ToFromCommonDate;
use crate::calendar::prelude::ToFromOrdinalDate;
use crate::common::date::CommonDate;
use crate::common::date::OrdinalDate;
use crate::common::error::CalendarError;
use crate::common::math::div_floor;
use crate::common::math::modulus;
use crate::day_count::fixed::fixed_in_bounds;
use crate::day_count::fixed::Epoch;
use crate::day_count::fixed::FromFixed;
use crate::day_count::fixed::ToFixed;
use crate::day_count::fixed::FIXED_MAX;
use crate::day_count::fixed::FIXED_MIN;
use vstd::arithmetic::div_mod::lemma_mod_multiples_basic;
use crate::day_count::fixed::CalculatedBounds;
use crate::calendar::prelude::GuaranteedMonth;
use crate::calendar::prelude::month_in_quarter;
use crate::calendar::gregorian::gregorian_fixed;
use vstd::prelude::*;

verus! {

/// The months of the Julian calendar are those of the Gregorian calendar.
pub type JulianMonth = GregorianMonth;

/// The day count of January 1, 1 AD in the Julian calendar.
pub const JULIAN_EPOCH_RD: i64 = -1;

/// The Julian leap year rule: every fourth year, counting 1 BC (year -1) as a leap year.
pub open spec fn julian_leap(y: int) -> bool {
    if y > 0 {
        y % 4 == 0
    } else {
        y % 4 == 3
    }
}

/// Why a year, month and day is not a Julian date: there is no year 0.
pub open spec fn julian_error(d: CommonDate) -> Option<CalendarError> {
    match solar_error(julian_leap(d.year as int), d) {
        Some(e) => Some(e),
        None => if d.year == 0 {
            Some(CalendarError::InvalidYear)
        } else {
            None
        },
    }
}

/// Astronomical year numbering: year -1 becomes year 0, and so on.
pub open spec fn julian_astronomical(year: int) -> int {
    if year < 0 {
        year + 1
    } else {
        year
    }
}

/// The number of days before the given Julian year, counted from the epoch.
pub open spec fn julian_prior_elapsed(year: int) -> int {
    let y = julian_astronomical(year);
    -2 + 365 * (y - 1) + (y - 1) / 4
}

pub open spec fn julian_day_of_year(d: CommonDate) -> int {
    solar_days_before_month(julian_leap(d.year as int), d.month as int) + d.day
}

/// The day count of a Julian date.
pub open spec fn julian_fixed(d: CommonDate) -> int {
    julian_prior_elapsed(d.year as int) + julian_day_of_year(d)
}

/// The Julian date of a day count.
pub open spec fn julian_from_fixed(date: int) -> CommonDate {
    choose|c: CommonDate| julian_error(c) is None && julian_fixed(c) == date
}

/// Represents a date in the proleptic Julian calendar.
#[derive(Debug, Clone, Copy, PartialEq, Eq, Structural)]
pub struct Julian(CommonDate);

impl Julian {
    #[verifier::type_invariant]
    spec fn valid(self) -> bool {
        julian_error(self.0) is None
    }

    /// The year, which is never zero.
    pub fn nz_year(self) -> (r: i32)
        ensures
            r == self.common_view().year,
            r != 0,
    {
        proof {
            use_type_invariant(&self);
        }
        self.0.year
    }

    /// The number of days before the given year, counted from the epoch.
    pub fn prior_elapsed_days(year: i32) -> (r: i64)
        ensures
            r == julian_prior_elapsed(year as int),
    {
        let y: i64 = if year < 0 {
            year as i64 + 1
        } else {
            year as i64
        };
        let offset_e = Julian::epoch() - 1;
        let offset_y = 365 * (y - 1);
        let offset_leap = div_floor(y - 1, 4);
        offset_e + offset_y + offset_leap
    }

    /// The length of a month in a given year.
    pub fn month_length(year: i32, month: JulianMonth) -> (r: u8)
        ensures
            r == solar_month_length(julian_leap(year as int), gregorian_month_number(month)),
    {
        match month {
            GregorianMonth::February => {
                if Julian::is_leap(year) {
                    29
                } else {
                    28
                }
            },
            _ => Gregorian::month_length(year, month),
        }
    }

    /// The month of the date.
    pub fn month(self) -> (r: JulianMonth)
        ensures
            gregorian_month_number(r) == self.common_view().month,
    {
        proof {
            use_type_invariant(&self);
        }
        GregorianMonth::from_u8(self.0.month).unwrap()
    }

    /// Attempts to build a Julian date.
    pub fn try_new(year: i32, month: JulianMonth, day: u8) -> (r: Result<Julian, CalendarError>)
        ensures
            ({
                let d = CommonDate { year, month: gregorian_month_number(month) as u8, day };
                &&& julian_error(d) is None ==> (r matches Ok(x) && x.common_view() == d)
                &&& julian_error(d) matches Some(e) ==> r == Err::<Julian, CalendarError>(e)
            }),
    {
        Julian::try_from_common_date(CommonDate::new(year, month.to_u8(), day))
    }
}

/// Splits a day count into an astronomical Julian year and a day of that year.
proof fn lemma_julian_year_of_fixed(date: int) -> (a: int)
    ensures
        a == (4 * (date - JULIAN_EPOCH_RD) + 1464) / 1461,
        1 <= date - (-2 + 365 * (a - 1) + (a - 1) / 4) <= solar_year_length((a % 4) == 0),
{
    let u = date + 1;
    let k = u / 1461;
    let v = u % 1461;
    lemma_div_mod_parts(u, 1461);
    let t = 4 * u + 1464;
    let j: int = if v < 365 {
        0
    } else if v < 730 {
        1
    } else if v < 1095 {
        2
    } else {
        3
    };
    lemma_div_in_range(t, 1461, 4 * k + j + 1);
    let a = 4 * k + j + 1;
    lemma_div_in_range(a - 1, 4, k);
    lemma_div_in_range(a, 4, k + (if j == 3 { 1int } else { 0int }));
    a
}

/// Julian years map to astronomical years with the same leap years.
proof fn lemma_julian_astronomical(year: int)
    requires
        year != 0,
    ensures
        julian_leap(year) == (julian_astronomical(year) % 4 == 0),
{
    let a = julian_astronomical(year);
    lemma_div_mod_parts(year, 4);
    lemma_div_mod_parts(a, 4);
    if year < 0 {
        lemma_div_in_range(a, 4, year / 4 + (if year % 4 == 3 { 1int } else { 0int }));
    }
}

/// The count of prior days grows with the year.
proof fn lemma_julian_prior_monotone(a: int, b: int)
    requires
        a <= b,
    ensures
        -2 + 365 * (a - 1) + (a - 1) / 4 <= -2 + 365 * (b - 1) + (b - 1) / 4,
        a < b ==> -2 + 365 * (a - 1) + (a - 1) / 4 + solar_year_length(a % 4 == 0) <= -2 + 365
            * (b - 1) + (b - 1) / 4,
{
    lemma_div_monotone(a - 1, b - 1, 4);
    lemma_div_mod_parts(a - 1, 4);
    lemma_div_mod_parts(a, 4);
    lemma_div_mod_parts(b - 1, 4);
    if a < b {
        lemma_div_monotone(a, b - 1, 4);
        if a % 4 == 0 {
            lemma_div_in_range(a, 4, (a - 1) / 4 + 1);
        } else {
            lemma_div_in_range(a, 4, (a - 1) / 4);
        }
    }
}

/// Different valid Julian dates have different day counts.
pub proof fn lemma_julian_fixed_injective(d1: CommonDate, d2: CommonDate)
    requires
        julian_error(d1) is None,
        julian_error(d2) is None,
        julian_fixed(d1) == julian_fixed(d2),
    ensures
        d1 == d2,
{
    let l1 = julian_leap(d1.year as int);
    let l2 = julian_leap(d2.year as int);
    lemma_solar_day_of_year_bounds(l1, d1.month as int, d1.day as int);
    lemma_solar_day_of_year_bounds(l2, d2.month as int, d2.day as int);
    lemma_julian_astronomical(d1.year as int);
    lemma_julian_astronomical(d2.year as int);
    let a1 = julian_astronomical(d1.year as int);
    let a2 = julian_astronomical(d2.year as int);
    if a1 < a2 {
        lemma_julian_prior_monotone(a1, a2);
    } else if a2 < a1 {
        lemma_julian_prior_monotone(a2, a1);
    }
    lemma_solar_day_of_year_injective(
        l1,
        d1.month as int,
        d1.day as int,
        d2.month as int,
        d2.day as int,
    );
}

/// The date that `from_fixed` finds is the only one with that day count.
pub proof fn lemma_julian_from_fixed_unique(c: CommonDate, date: int)
    requires
        julian_error(c) is None,
        julian_fixed(c) == date,
    ensures
        julian_from_fixed(date) == c,
{
    let w = julian_from_fixed(date);
    assert(julian_error(w) is None && julian_fixed(w) == date);
    lemma_julian_fixed_injective(w, c);
}

/// Converting a valid Julian date to its day count and back gives the same date.
pub proof fn law_julian_date_roundtrip(c: CommonDate)
    requires
        julian_error(c) is None,
    ensures
        julian_from_fixed(julian_fixed(c)) == c,
{
    lemma_julian_from_fixed_unique(c, julian_fixed(c));
}

/// Julian year from its astronomical number.
pub open spec fn julian_year_of_astronomical(a: int) -> int {
    if a <= 0 {
        a - 1
    } else {
        a
    }
}

/// Every day count within the supported range is the day count of exactly one
/// Julian date, and `julian_from_fixed` finds it.
pub proof fn law_julian_fixed_roundtrip(date: int)
    requires
        fixed_in_bounds(date),
    ensures
        julian_error(julian_from_fixed(date)) is None,
        julian_fixed(julian_from_fixed(date)) == date,
        -50000001 <= julian_from_fixed(date).year <= 50000000,
{
    let a = lemma_julian_year_of_fixed(date);
    let year = julian_year_of_astronomical(a);
    lemma_julian_year_bounds(date, a);
    lemma_julian_astronomical(year);
    let doy = date - julian_prior_elapsed(year);
    let (m, d) = lemma_solar_month_day_exists(julian_leap(year), doy);
    let c = CommonDate { year: year as i32, month: m as u8, day: d as u8 };
    lemma_julian_from_fixed_unique(c, date);
}

/// The year after a Julian year: year 1 AD follows year 1 BC.
pub open spec fn julian_next_year(year: int) -> int {
    if year == -1 {
        1
    } else {
        year + 1
    }
}

/// The days before the next year are those before this year and this year's days.
pub proof fn lemma_julian_prior_next(year: int)
    requires
        year != 0,
    ensures
        julian_prior_elapsed(julian_next_year(year)) == julian_prior_elapsed(year)
            + solar_year_length(julian_leap(year)),
{
    let a = julian_astronomical(year);
    lemma_julian_astronomical(year);
    assert(julian_astronomical(julian_next_year(year)) == a + 1);
    lemma_div_mod_parts(a - 1, 4);
    if a % 4 == 0 {
        lemma_div_in_range(a, 4, (a - 1) / 4 + 1);
    } else {
        lemma_div_mod_parts(a, 4);
        lemma_div_in_range(a, 4, (a - 1) / 4);
    }
}

/// The first day of the month after a date's month lies as many days after the date as
/// the rest of its month.
pub proof fn lemma_julian_next_month_start(c: CommonDate)
    requires
        julian_error(c) is None,
        c.year < i32::MAX,
    ensures
        ({
            let m1: int = if c.month == 12 {
                1
            } else {
                c.month + 1
            };
            let y1: int = if c.month == 12 {
                julian_next_year(c.year as int)
            } else {
                c.year as int
            };
            let k = CommonDate { year: y1 as i32, month: m1 as u8, day: 1 };
            &&& julian_error(k) is None
            &&& julian_fixed(k) == julian_fixed(c) - c.day + solar_month_length(
                julian_leap(c.year as int),
                c.month as int,
            ) + 1
        }),
{
    lemma_solar_months(julian_leap(c.year as int), c.month as int);
    if c.month == 12 {
        lemma_julian_prior_next(c.year as int);
    }
}

/// A day count within the supported range lies in a year that fits in `i32`.
proof fn lemma_julian_year_bounds(date: int, a: int)
    requires
        fixed_in_bounds(date),
        a == (4 * (date - JULIAN_EPOCH_RD) + 1464) / 1461,
    ensures
        -50000000 <= a <= 50000000,
{
    lemma_div_monotone(4 * (date + 1) + 1464, 4 * (FIXED_MAX + 1) + 1464, 1461);
    lemma_div_monotone(4 * (FIXED_MIN + 1) + 1464, 4 * (date + 1) + 1464, 1461);
    lemma_div_in_range(4 * (FIXED_MAX + 1) + 1464, 1461, 47012952);
    lemma_div_in_range(4 * (FIXED_MIN + 1) + 1464, 1461, -47012951);
}

impl HasLeapYears for Julian {
    open spec fn leap_spec(year: int) -> bool {
        julian_leap(year)
    }

    fn is_leap(j_year: i32) -> (r: bool) {
        let m4 = modulus(j_year as i64, 4);
        assert(Self::leap_spec(j_year as int) == julian_leap(j_year as int));
        if j_year > 0 {
            m4 == 0
        } else {
            m4 == 3
        }
    }
}

impl ToFromCommonDate for Julian {
    closed spec fn common_view(self) -> CommonDate {
        self.0
    }

    open spec fn ymd_error(d: CommonDate) -> Option<CalendarError> {
        julian_error(d)
    }

    open spec fn year_start_spec(year: int) -> CommonDate {
        CommonDate { year: year as i32, month: 1, day: 1 }
    }

    open spec fn year_end_spec(year: int) -> CommonDate {
        CommonDate { year: year as i32, month: 12, day: 31 }
    }

    fn to_common_date(self) -> (r: CommonDate) {
        proof {
            use_type_invariant(&self);
        }
        self.0
    }

    fn from_common_date_unchecked(d: CommonDate) -> (r: Self) {
        Julian(d)
    }

    fn valid_ymd(date: CommonDate) -> (r: Result<(), CalendarError>) {
        let month_opt = JulianMonth::from_u8(date.month);
        match month_opt {
            None => Err(CalendarError::InvalidMonth),
            Some(m) => {
                if date.day < 1 {
                    Err(CalendarError::InvalidDay)
                } else if date.day > Julian::month_length(date.year, m) {
                    Err(CalendarError::InvalidDay)
                } else if date.year == 0 {
                    Err(CalendarError::InvalidYear)
                } else {
                    Ok(())
                }
            },
        }
    }

    fn year_start_date(year: i32) -> (r: CommonDate) {
        CommonDate::new(year, 1, 1)
    }

    fn year_end_date(year: i32) -> (r: CommonDate) {
        let m = GregorianMonth::December;
        CommonDate::new(year, m.to_u8(), Julian::month_length(year, m))
    }
}

impl ToFromOrdinalDate for Julian {
    /// The day of year must fall within the year, and there is no year 0.
    open spec fn ordinal_error(ord: OrdinalDate) -> Option<CalendarError> {
        if ord.year == 0 {
            Some(CalendarError::InvalidYear)
        } else if 1 <= ord.day_of_year <= solar_year_length(julian_leap(ord.year as int)) {
            None
        } else {
            Some(CalendarError::InvalidDayOfYear)
        }
    }

    open spec fn ordinal_of(d: CommonDate) -> OrdinalDate {
        OrdinalDate { year: d.year, day_of_year: julian_day_of_year(d) as u16 }
    }

    open spec fn fixed_of_ordinal(ord: OrdinalDate) -> int {
        julian_prior_elapsed(ord.year as int) + ord.day_of_year
    }

    fn valid_ordinal(ord: OrdinalDate) -> (r: Result<(), CalendarError>) {
        if ord.year == 0 {
            return Err(CalendarError::InvalidYear);
        }
        let correction: u16 = if Julian::is_leap(ord.year) {
            1
        } else {
            0
        };
        if ord.day_of_year > 0 && ord.day_of_year <= (365 + correction) {
            Ok(())
        } else {
            Err(CalendarError::InvalidDayOfYear)
        }
    }

    fn ordinal_from_fixed(fixed_date: i64) -> (r: OrdinalDate) {
        let date = fixed_date;
        let epoch = Julian::epoch();
        let approx = div_floor((4 * (date - epoch)) + 1464, 1461);
        proof {
            let a = lemma_julian_year_of_fixed(date as int);
            lemma_julian_year_bounds(date as int, a);
        }
        let year: i32 = if approx <= 0 {
            (approx - 1) as i32
        } else {
            approx as i32
        };
        proof {
            lemma_julian_astronomical(year as int);
        }
        let year_start = Julian::prior_elapsed_days(year) + 1;
        let prior_days = (date - year_start) as u16;
        OrdinalDate { year: year, day_of_year: prior_days + 1 }
    }

    fn to_ordinal(self) -> (r: OrdinalDate)
        ensures
            Self::ordinal_error(r) is None,
    {
        proof {
            use_type_invariant(&self);
            lemma_solar_day_of_year_bounds(
                julian_leap(self.0.year as int),
                self.0.month as int,
                self.0.day as int,
            );
        }
        let leap = Julian::is_leap(self.0.year);
        OrdinalDate { year: self.0.year, day_of_year: solar_ordinal(leap, self.0.month, self.0.day) }
    }

    fn from_ordinal_unchecked(ord: OrdinalDate) -> (r: Self) {
        let leap = Julian::is_leap(ord.year);
        let (month, day) = solar_from_ordinal(leap, ord.day_of_year);
        Julian(CommonDate { year: ord.year, month, day })
    }
}

impl Epoch for Julian {
    open spec fn epoch_spec() -> int {
        -1
    }

    fn epoch() -> (r: i64) {
        assert(Self::epoch_spec() == -1);
        JULIAN_EPOCH_RD
    }
}

impl ToFixed for Julian {
    open spec fn fixed_spec(self) -> int {
        julian_fixed(self.common_view())
    }

    fn to_fixed(self) -> (r: i64) {
        proof {
            use_type_invariant(&self);
        }
        let offset_prior = Julian::prior_elapsed_days(self.0.year);
        let ord = self.to_ordinal();
        offset_prior + (ord.day_of_year as i64)
    }
}

impl FromFixed for Julian {
    closed spec fn from_fixed_spec(date: int) -> Self {
        Julian(julian_from_fixed(date))
    }

    fn from_fixed(date: i64) -> (r: Self)
        ensures
            r.common_view() == julian_from_fixed(date as int),
    {
        let ord = Julian::ordinal_from_fixed(date);
        let r = Julian::from_ordinal_unchecked(ord);
        proof {
            use_type_invariant(&r);
            lemma_julian_from_fixed_unique(r.0, date as int);
        }
        r
    }
}

impl Quarter for Julian {
    open spec fn quarter_spec(self) -> int {
        month_quarter(self.common_view().month as int)
    }

    fn quarter(self) -> (r: u8) {
        proof {
            use_type_invariant(&self);
        }
        let m: u8 = self.to_common_date().month;
        let r: u8 = (m - 1) / 3 + 1;
        assert(self.quarter_spec() == month_quarter(m as int));
        r
    }
}

impl CommonWeekOfYear for Julian {
    open spec fn fixed_of_date(d: CommonDate) -> int {
        julian_fixed(d)
    }

    proof fn lemma_fixed_of_date(x: Self) {
    }
}


impl CalculatedBounds for Julian {
    open spec fn valid_date(self) -> bool {
        julian_error(self.common_view()) is None
    }

    proof fn lemma_from_fixed_keeps_day(date: int) {
        law_julian_fixed_roundtrip(date);
    }

    proof fn lemma_to_fixed_and_back(x: Self) {
        law_julian_date_roundtrip(x.common_view());
    }
}

/// There is no year 0 in the Julian calendar: no date of that year is valid.
pub proof fn law_julian_no_year_zero(d: CommonDate)
    requires
        d.year == 0,
    ensures
        julian_error(d) is Some,
{
}


impl GuaranteedMonth<JulianMonth> for Julian {
    open spec fn month_number(m: JulianMonth) -> int {
        gregorian_month_number(m)
    }

    fn month(self) -> (r: JulianMonth) {
        Julian::month(self)
    }
}

/// A date's quarter holds its month: January to March (the first three months) in the
/// first, the next three in the second, then the third, and the last three in the fourth.
pub proof fn law_julian_quarter(x: Julian)
    ensures
        month_in_quarter(x.common_view().month as int, x.quarter_spec()),
{
}

/// The first day of the Julian calendar, January 1 of AD 1, is December 30 of 1 BC (year 0)
/// in the proleptic Gregorian calendar, two days before the Gregorian epoch.
pub proof fn law_julian_epoch()
    ensures
        julian_fixed(CommonDate { year: 1, month: 1, day: 1 }) == gregorian_fixed(CommonDate { year: 0, month: 12, day: 30 }),
        julian_fixed(CommonDate { year: 1, month: 1, day: 1 }) == gregorian_fixed(CommonDate { year: 1, month: 1, day: 1 }) - 2,
{
}

} // verus!
