use crate::calendar::arith::lemma_div_in_range;
use crate::calendar::arith::lemma_div_mod_parts;
use crate::calendar::gregorian::Gregorian;
use crate::calendar::prelude::CommonWeekOfYear;
use crate::calendar::prelude::HasLeapYears;
use crate::calendar::prelude::Quarter;
use crate::calendar::prelude::ToFromCommonDate;
use crate::calendar::prelude::ToFromOrdinalDate;
use crate::common::date::CommonDate;
use crate::common::date::OrdinalDate;
use crate::common::error::CalendarError;
use crate::common::math::div_floor;
use crate::common::math::modulus;
use crate::day_count::fixed::fixed_in_bounds;
use crate::day_count::fixed::Epoch;
use crate::day_count::fixed::FromFixed;
use crate::day_count::fixed::ToFixed;
use crate::day_count::fixed::FIXED_MAX;
use crate::day_count::fixed::FIXED_MIN;
use crate::day_count::fixed::CalculatedBounds;
use crate::day_cycle::week::weekday_of_number;
use crate::day_cycle::week::Weekday;
use crate::calendar::prelude::GuaranteedMonth;
use crate::calendar::prelude::month_in_quarter;
use crate::calendar::gregorian::gregorian_fixed;
use vstd::prelude::*;

verus! {

/// A month of the Symmetry calendars; Irvember is the leap week at the end of a leap year.
#[derive(Debug, Clone, Copy, PartialEq, Eq, PartialOrd, Ord, Hash, Structural)]
pub enum SymmetryMonth {
    January,
    February,
    March,
    April,
    May,
    June,
    July,
    August,
    September,
    October,
    November,
    December,
    Irvember,
}

/// The number of each value of `SymmetryMonth`.
pub open spec fn symmetry_month_number(m: SymmetryMonth) -> int {
    match m {
        SymmetryMonth::January => 1,
        SymmetryMonth::February => 2,
        SymmetryMonth::March => 3,
        SymmetryMonth::April => 4,
        SymmetryMonth::May => 5,
        SymmetryMonth::June => 6,
        SymmetryMonth::July => 7,
        SymmetryMonth::August => 8,
        SymmetryMonth::September => 9,
        SymmetryMonth::October => 10,
        SymmetryMonth::November => 11,
        SymmetryMonth::December => 12,
        SymmetryMonth::Irvember => 13,
    }
}

impl SymmetryMonth {
    /// The number of the value.
    pub fn to_u8(self) -> (r: u8)
        ensures
            r == symmetry_month_number(self),
    {
        match self {
            SymmetryMonth::January => 1,
            SymmetryMonth::February => 2,
            SymmetryMonth::March => 3,
            SymmetryMonth::April => 4,
            SymmetryMonth::May => 5,
            SymmetryMonth::June => 6,
            SymmetryMonth::July => 7,
            SymmetryMonth::August => 8,
            SymmetryMonth::September => 9,
            SymmetryMonth::October => 10,
            SymmetryMonth::November => 11,
            SymmetryMonth::December => 12,
            SymmetryMonth::Irvember => 13,
        }
    }

    /// The value with the given number, if there is one.
    pub fn from_u8(n: u8) -> (r: Option<SymmetryMonth>)
        ensures
            1 <= n <= 13 ==> (r matches Some(m) && symmetry_month_number(m) == n),
            !(1 <= n <= 13) ==> r is None,
    {
        match n {
            1 => Some(SymmetryMonth::January),
            2 => Some(SymmetryMonth::February),
            3 => Some(SymmetryMonth::March),
            4 => Some(SymmetryMonth::April),
            5 => Some(SymmetryMonth::May),
            6 => Some(SymmetryMonth::June),
            7 => Some(SymmetryMonth::July),
            8 => Some(SymmetryMonth::August),
            9 => Some(SymmetryMonth::September),
            10 => Some(SymmetryMonth::October),
            11 => Some(SymmetryMonth::November),
            12 => Some(SymmetryMonth::December),
            13 => Some(SymmetryMonth::Irvember),
            _ => None,
        }
    }
}


/// The cycle length of a leap rule, in years: 293 for the northward equinox rule, 389 for
/// the north solstice rule.
pub open spec fn sym_cycle(u: bool) -> int {
    if u {
        293
    } else {
        389
    }
}

/// The number of leap years in a cycle.
pub open spec fn sym_leaps(u: bool) -> int {
    if u {
        52
    } else {
        69
    }
}

/// The offset that places the leap years symmetrically within a cycle.
pub open spec fn sym_offset(u: bool) -> int {
    if u {
        146
    } else {
        194
    }
}

/// The Symmetry leap year rule: a year is a leap year when its place in the cycle falls
/// among the first `sym_leaps` places.
pub open spec fn sym_leap(u: bool, year: int) -> bool {
    (sym_leaps(u) * year + sym_offset(u)) % sym_cycle(u) < sym_leaps(u)
}

/// The day count of the first day of a Symmetry year: 52 weeks per year, and one more week
/// for each leap year before it.
pub open spec fn sym_new_year(u: bool, year: int, epoch: int) -> int {
    let e = year - 1;
    epoch + 364 * e + 7 * ((sym_leaps(u) * e + sym_offset(u)) / sym_cycle(u))
}

/// The number of days in a year: 52 weeks, and a leap week in leap years.
pub open spec fn sym_year_length(u: bool, year: int) -> int {
    if sym_leap(u, year) {
        371
    } else {
        364
    }
}

/// A year lasts from its first day to the first day of the next year, and its length is
/// 364 days, or 371 in a leap year.
pub proof fn law_sym_year_length(u: bool, year: int, epoch: int)
    ensures
        sym_new_year(u, year + 1, epoch) - sym_new_year(u, year, epoch) == sym_year_length(u, year),
{
    let c = sym_cycle(u);
    let a = sym_leaps(u) * (year - 1) + sym_offset(u);
    let b = sym_leaps(u) * year + sym_offset(u);
    lemma_div_mod_parts(a, c);
    lemma_div_mod_parts(b, c);
    assert(b == a + sym_leaps(u));
    if u {
        assert(b / 293 - a / 293 == (if b % 293 < 52 { 1int } else { 0int })) by (nonlinear_arith)
            requires
                a == 293 * (a / 293) + a % 293,
                b == 293 * (b / 293) + b % 293,
                0 <= a % 293 < 293,
                0 <= b % 293 < 293,
                b == a + 52,
        ;
    } else {
        assert(b / 389 - a / 389 == (if b % 389 < 69 { 1int } else { 0int })) by (nonlinear_arith)
            requires
                a == 389 * (a / 389) + a % 389,
                b == 389 * (b / 389) + b % 389,
                0 <= a % 389 < 389,
                0 <= b % 389 < 389,
                b == a + 69,
        ;
    }
}

/// The first days of later years come later.
pub proof fn lemma_sym_new_year_monotone(u: bool, y1: int, y2: int, epoch: int)
    requires
        y1 < y2,
    ensures
        sym_new_year(u, y1, epoch) + 364 <= sym_new_year(u, y2, epoch),
    decreases y2 - y1,
{
    law_sym_year_length(u, y1, epoch);
    if y1 + 1 < y2 {
        lemma_sym_new_year_monotone(u, y1 + 1, y2, epoch);
    }
}

/// The first day of a year lies within a few days of the mean-year line:
/// `C * (first day - epoch)` is within `7 * C` below `(year - 1) * M + 7 * K`, where `M` is
/// the cycle's days and `C` and `K` its length and offset.
proof fn lemma_sym_new_year_near(u: bool, year: int, epoch: int)
    ensures
        sym_cycle(u) * (sym_new_year(u, year, epoch) - epoch) <= (year - 1) * sym_cycle_days(u) + 7
            * sym_offset(u),
        sym_cycle(u) * (sym_new_year(u, year, epoch) - epoch) > (year - 1) * sym_cycle_days(u) + 7
            * sym_offset(u) - 7 * sym_cycle(u),
{
    let e = year - 1;
    let a = sym_leaps(u) * e + sym_offset(u);
    lemma_div_mod_parts(a, sym_cycle(u));
    let q = a / sym_cycle(u);
    if u {
        assert(293 * (364 * e + 7 * q) <= e * 107016 + 7 * 146 && 293 * (364 * e + 7 * q) > e
            * 107016 + 7 * 146 - 7 * 293) by (nonlinear_arith)
            requires
                a == 52 * e + 146,
                a == 293 * q + a % 293,
                0 <= a % 293 < 293,
        ;
    } else {
        assert(389 * (364 * e + 7 * q) <= e * 142079 + 7 * 194 && 389 * (364 * e + 7 * q) > e
            * 142079 + 7 * 194 - 7 * 389) by (nonlinear_arith)
            requires
                a == 69 * e + 194,
                a == 389 * q + a % 389,
                0 <= a % 389 < 389,
        ;
    }
}

/// The days of a whole cycle of years: `364 * C + 7 * L`.
pub open spec fn sym_cycle_days(u: bool) -> int {
    if u {
        107016
    } else {
        142079
    }
}

/// The year that holds a day: the one whose first day is on or before it and whose next
/// year's first day is after it.
pub open spec fn sym_year_of(u: bool, date: int, epoch: int) -> int {
    choose|y: int| #[trigger] sym_new_year(u, y, epoch) <= date < sym_new_year(u, y + 1, epoch)
}

/// At most one year holds a day.
pub proof fn lemma_sym_year_unique(u: bool, y1: int, y2: int, date: int, epoch: int)
    requires
        sym_new_year(u, y1, epoch) <= date < sym_new_year(u, y1 + 1, epoch),
        sym_new_year(u, y2, epoch) <= date < sym_new_year(u, y2 + 1, epoch),
    ensures
        y1 == y2,
{
    if y1 + 1 < y2 {
        lemma_sym_new_year_monotone(u, y1 + 1, y2, epoch);
    } else if y2 + 1 < y1 {
        lemma_sym_new_year_monotone(u, y2 + 1, y1, epoch);
    }
}

/// The number of days in the months before a month: 4, 5 and 4 weeks per quarter when `t`
/// holds, else 30, 31 and 30 days.
pub open spec fn sym_days_before_month(t: bool, m: int) -> int {
    if t {
        28 * (m - 1) + 7 * (m / 3)
    } else {
        30 * (m - 1) + m / 3
    }
}

/// The length of a month; Irvember, the thirteenth, is one week.
pub open spec fn sym_month_length(t: bool, m: int) -> int {
    if m == 13 {
        7
    } else if t {
        28 + 7 * ((m % 3) / 2)
    } else {
        30 + (m % 3) / 2
    }
}

/// Why a year, month and day is not a Symmetry date. Irvember is accepted in any year.
pub open spec fn sym_error(t: bool, d: CommonDate) -> Option<CalendarError> {
    if d.month < 1 || d.month > 13 {
        Some(CalendarError::InvalidMonth)
    } else if d.day < 1 || d.day > sym_month_length(t, d.month as int) {
        Some(CalendarError::InvalidDay)
    } else {
        None
    }
}

/// The day of year of a month and day.
pub open spec fn sym_day_of_year(t: bool, d: CommonDate) -> int {
    sym_days_before_month(t, d.month as int) + d.day
}

/// The day count of a Symmetry date.
pub open spec fn sym_fixed(t: bool, u: bool, d: CommonDate) -> int {
    sym_new_year(u, d.year as int, 1) + sym_day_of_year(t, d) - 1
}

/// The date of a year that has the given day of year.
pub open spec fn sym_date_of(t: bool, year: int, doy: int) -> CommonDate {
    choose|c: CommonDate|
        sym_error(t, c) is None && c.year == year && #[trigger] sym_day_of_year(t, c) == doy
}

/// The Symmetry date of a day count.
pub open spec fn sym_from_fixed(t: bool, u: bool, date: int) -> CommonDate {
    let y = sym_year_of(u, date, 1);
    sym_date_of(t, y, date - sym_new_year(u, y, 1) + 1)
}

/// Month lengths and offsets fit together.
pub proof fn lemma_sym_months(t: bool, m: int)
    requires
        1 <= m <= 12,
    ensures
        sym_days_before_month(t, m + 1) == sym_days_before_month(t, m) + sym_month_length(t, m),
        sym_days_before_month(t, 1) == 0,
        sym_days_before_month(t, 13) == 364,
{
    lemma_div_mod_parts(m, 3);
    lemma_div_mod_parts(m + 1, 3);
    if m % 3 == 2 {
        lemma_div_in_range(m + 1, 3, m / 3 + 1);
    } else {
        lemma_div_in_range(m + 1, 3, m / 3);
    }
    lemma_div_in_range(13, 3, 4);
    lemma_div_in_range(1, 3, 0);
}

/// Offsets of months are ordered as the months are.
proof fn lemma_sym_months_ordered(t: bool, m1: int, m2: int)
    requires
        1 <= m1 < m2 <= 13,
    ensures
        sym_days_before_month(t, m1) + sym_month_length(t, m1) <= sym_days_before_month(t, m2),
    decreases m2 - m1,
{
    lemma_sym_months(t, m1);
    if m1 + 1 < m2 {
        lemma_sym_months_ordered(t, m1 + 1, m2);
    }
}

/// A valid month and day gives a day of year from 1 to 371.
proof fn lemma_sym_day_of_year_bounds(t: bool, d: CommonDate)
    requires
        sym_error(t, d) is None,
    ensures
        1 <= sym_day_of_year(t, d) <= 371,
        d.month < 13 ==> sym_day_of_year(t, d) <= 364,
{
    lemma_sym_months(t, 1);
    if d.month < 13 {
        lemma_sym_months_ordered(t, d.month as int, 13);
    }
    lemma_div_mod_parts(d.month as int, 3);
}

/// Two valid dates of a year with the same day of year are the same.
proof fn lemma_sym_day_of_year_injective(t: bool, d1: CommonDate, d2: CommonDate)
    requires
        sym_error(t, d1) is None,
        sym_error(t, d2) is None,
        d1.year == d2.year,
        sym_day_of_year(t, d1) == sym_day_of_year(t, d2),
    ensures
        d1 == d2,
{
    if d1.month < d2.month {
        lemma_sym_months_ordered(t, d1.month as int, d2.month as int);
    } else if d2.month < d1.month {
        lemma_sym_months_ordered(t, d2.month as int, d1.month as int);
    }
}

/// The date that `sym_date_of` finds is the only one with that day of year.
proof fn lemma_sym_date_of_unique(t: bool, c: CommonDate)
    requires
        sym_error(t, c) is None,
    ensures
        sym_date_of(t, c.year as int, sym_day_of_year(t, c)) == c,
{
    let w = sym_date_of(t, c.year as int, sym_day_of_year(t, c));
    assert(sym_error(t, c) is None && c.year == c.year && sym_day_of_year(t, c)
        == sym_day_of_year(t, c));
    lemma_sym_day_of_year_injective(t, w, c);
}

/// The month and day of a day of year, by quarters, weeks and months.
pub open spec fn sym_month_of_ordinal(t: bool, doy: int) -> int {
    let week_of_year = (doy + 6) / 7;
    let quarter = (4 * week_of_year + 52) / 53;
    let day_of_quarter = doy - 91 * (quarter - 1);
    let week_of_quarter = (day_of_quarter + 6) / 7;
    let month_of_quarter = if t {
        (2 * week_of_quarter + 8) / 9
    } else {
        (2 * day_of_quarter + 60) / 61
    };
    3 * (quarter - 1) + month_of_quarter
}

/// The month that `sym_month_of_ordinal` finds holds the day.
proof fn lemma_sym_month_of_ordinal(t: bool, doy: int)
    requires
        1 <= doy <= 371,
    ensures
        1 <= sym_month_of_ordinal(t, doy) <= 13,
        1 <= doy - sym_days_before_month(t, sym_month_of_ordinal(t, doy)) <= sym_month_length(
            t,
            sym_month_of_ordinal(t, doy),
        ),
{
    let w = (doy + 6) / 7;
    lemma_div_mod_parts(doy + 6, 7);
    let q = (4 * w + 52) / 53;
    lemma_div_mod_parts(4 * w + 52, 53);
    assert(1 <= w <= 53);
    if w <= 13 {
        lemma_div_in_range(4 * w + 52, 53, 1);
    } else if w <= 26 {
        lemma_div_in_range(4 * w + 52, 53, 2);
    } else if w <= 39 {
        lemma_div_in_range(4 * w + 52, 53, 3);
    } else {
        lemma_div_in_range(4 * w + 52, 53, 4);
    }
    let dq = doy - 91 * (q - 1);
    assert(1 <= dq <= 98);
    assert(q < 4 ==> dq <= 91);
    let wq = (dq + 6) / 7;
    lemma_div_mod_parts(dq + 6, 7);
    let mq = if t {
        (2 * wq + 8) / 9
    } else {
        (2 * dq + 60) / 61
    };
    if t {
        lemma_div_mod_parts(2 * wq + 8, 9);
        if dq <= 28 {
            lemma_div_in_range(2 * wq + 8, 9, 1);
        } else if dq <= 63 {
            lemma_div_in_range(2 * wq + 8, 9, 2);
        } else if dq <= 91 {
            lemma_div_in_range(2 * wq + 8, 9, 3);
        } else {
            lemma_div_in_range(2 * wq + 8, 9, 4);
        }
    } else {
        lemma_div_mod_parts(2 * dq + 60, 61);
        if dq <= 30 {
            lemma_div_in_range(2 * dq + 60, 61, 1);
        } else if dq <= 61 {
            lemma_div_in_range(2 * dq + 60, 61, 2);
        } else if dq <= 91 {
            lemma_div_in_range(2 * dq + 60, 61, 3);
        } else {
            lemma_div_in_range(2 * dq + 60, 61, 4);
        }
    }
    let m = 3 * (q - 1) + mq;
    assert(m == sym_month_of_ordinal(t, doy));
    lemma_div_in_range(m, 3, q - 1 + (if mq == 3 || mq == 4 { 1int } else { 0int }));
    lemma_div_mod_parts(m, 3);
}

struct SymmetryParams {
    c: i64,
    l: i64,
    k: i64,
}

/// Represents a date in one of the Symmetry calendars of Dr. Irvin L. Bromberg.
///
/// `T` is `true` for the Symmetry454 month lengths (4, 5 and 4 weeks in each quarter) and
/// `false` for the Symmetry010 lengths (30, 31 and 30 days). `U` is `true` for the 293-year
/// leap cycle (northward equinox) and `false` for the 389-year cycle (north solstice).
/// The extra week of a leap year is a thirteenth month, Irvember. Year 0 is supported.
#[derive(Debug, Clone, Copy, PartialEq, Eq)]
pub struct Symmetry<const T: bool, const U: bool>(CommonDate);

/// Symmetry454 calendar with the 293-year leap rule.
pub type Symmetry454 = Symmetry<true, true>;

/// Symmetry010 calendar with the 293-year leap rule.
pub type Symmetry010 = Symmetry<false, true>;

/// Symmetry454 calendar with the 389-year leap rule.
pub type Symmetry454Solstice = Symmetry<true, false>;

/// Symmetry010 calendar with the 389-year leap rule.
pub type Symmetry010Solstice = Symmetry<false, false>;

impl<const T: bool, const U: bool> Symmetry<T, U> {
    #[verifier::type_invariant]
    spec fn valid(self) -> bool {
        sym_error(T, self.0) is None
    }

    fn params() -> (p: SymmetryParams)
        ensures
            p.c == sym_cycle(U),
            p.l == sym_leaps(U),
            p.k == sym_offset(U),
    {
        if U {
            SymmetryParams { c: 293, l: 52, k: 146 }
        } else {
            SymmetryParams { c: 389, l: 69, k: 194 }
        }
    }

    /// Returns `(T, U)`: whether the months are 4-5-4 weeks long, and whether the leap
    /// rule is the 293-year one.
    pub fn mode(self) -> (r: (bool, bool))
        ensures
            r == (T, U),
    {
        (T, U)
    }

    /// The day count of the first day of a Symmetry year, for a calendar with the given
    /// epoch.
    pub fn new_year_day_unchecked(sym_year: i32, sym_epoch: i64) -> (r: i64)
        requires
            -0x4000_0000_0000_0000 <= sym_epoch <= 0x4000_0000_0000_0000,
        ensures
            r == sym_new_year(U, sym_year as int, sym_epoch as int),
    {
        Self::new_year_day_wide(sym_year as i64, sym_epoch)
    }

    fn new_year_day_wide(sym_year: i64, sym_epoch: i64) -> (r: i64)
        requires
            -0x1_0000_0000 <= sym_year <= 0x1_0000_0000,
            -0x4000_0000_0000_0000 <= sym_epoch <= 0x4000_0000_0000_0000,
        ensures
            r == sym_new_year(U, sym_year as int, sym_epoch as int),
    {
        let p = Self::params();
        let e = sym_year - 1;
        let q = div_floor((p.l * e) + p.k, p.c);
        proof {
            let a: int = p.l * e + p.k;
            let c: int = p.c as int;
            lemma_div_mod_parts(a, c);
            assert(-0x100_0000_0000 <= q <= 0x100_0000_0000) by (nonlinear_arith)
                requires
                    a == c * q + a % c,
                    0 <= a % c < c,
                    a == p.l * e + p.k,
                    1 <= p.l <= 100,
                    1 <= p.k <= 200,
                    200 <= c <= 400,
                    -0x1_0000_0001 <= e <= 0x1_0000_0000,
            ;
        }
        sym_epoch + (364 * e) + (7 * q)
    }

    /// Finds the year that holds a day and the day count of its first day, for a calendar
    /// with the given epoch.
    pub fn year_from_fixed(fixed: i64, epoch: i64) -> (r: (i32, i64))
        requires
            2 * FIXED_MIN <= fixed - epoch <= 2 * FIXED_MAX,
            -0x4000_0000_0000_0000 <= epoch <= 0x4000_0000_0000_0000,
        ensures
            r.1 == sym_new_year(U, r.0 as int, epoch as int),
            r.1 <= fixed < sym_new_year(U, r.0 + 1, epoch as int),
            r.0 == sym_year_of(U, fixed as int, epoch as int),
    {
        let p = Self::params();
        let m = 364 * p.c + 7 * p.l;
        let x = fixed - epoch;
        let s = div_floor(x * p.c + m - 1, m);
        let ghost g = s as int;
        proof {
            lemma_ceil_div(x * p.c, m as int, g);
            lemma_sym_year_estimate(U, x as int, g);
            lemma_sym_year_bracket(U, fixed as int, epoch as int, g);
            law_sym_year_length(U, g, epoch as int);
        }
        let sym_year = s as i32;
        let start_of_year = Self::new_year_day_unchecked(sym_year, epoch);
        let r = if start_of_year < fixed {
            if (fixed - start_of_year) >= 364 {
                let start_of_next_year = Self::new_year_day_unchecked(sym_year + 1, epoch);
                if fixed >= start_of_next_year {
                    (sym_year + 1, start_of_next_year)
                } else {
                    (sym_year, start_of_year)
                }
            } else {
                (sym_year, start_of_year)
            }
        } else if start_of_year > fixed {
            (sym_year - 1, Self::new_year_day_unchecked(sym_year - 1, epoch))
        } else {
            (sym_year, start_of_year)
        };
        proof {
            let y = sym_year_of(U, fixed as int, epoch as int);
            lemma_sym_year_unique(U, y, r.0 as int, fixed as int, epoch as int);
        }
        r
    }

    /// The number of days before a month of a Symmetry454 year.
    pub fn days_before_month_454(sym_month: i64) -> (r: u16)
        requires
            1 <= sym_month <= 13,
        ensures
            r == sym_days_before_month(true, sym_month as int),
    {
        proof {
            lemma_div_mod_parts(sym_month as int, 3);
        }
        ((28 * (sym_month - 1)) + 7 * div_floor(sym_month, 3)) as u16
    }

    /// The number of days before a month of a Symmetry010 year.
    pub fn days_before_month_010(sym_month: i64) -> (r: u16)
        requires
            1 <= sym_month <= 13,
        ensures
            r == sym_days_before_month(false, sym_month as int),
    {
        proof {
            lemma_div_mod_parts(sym_month as int, 3);
        }
        ((30 * (sym_month - 1)) + div_floor(sym_month, 3)) as u16
    }

    /// The number of days before a month of the year.
    pub fn days_before_month(sym_month: u8) -> (r: u16)
        requires
            1 <= sym_month <= 13,
        ensures
            r == sym_days_before_month(T, sym_month as int),
    {
        if T {
            Self::days_before_month_454(sym_month as i64)
        } else {
            Self::days_before_month_010(sym_month as i64)
        }
    }

    /// The day of year of a month and day.
    pub fn day_of_year(sym_month: u8, sym_day: u8) -> (r: u16)
        requires
            1 <= sym_month <= 13,
        ensures
            r == sym_days_before_month(T, sym_month as int) + sym_day,
    {
        proof {
            lemma_sym_months(T, 1);
            if sym_month < 13 {
                lemma_sym_months_ordered(T, sym_month as int, 13);
            }
        }
        Self::days_before_month(sym_month) + (sym_day as u16)
    }

    /// The length of a month: 7 days for Irvember, else 4 or 5 weeks, or 30 or 31 days.
    pub fn days_in_month(month: SymmetryMonth) -> (r: u8)
        ensures
            r == sym_month_length(T, symmetry_month_number(month)),
    {
        if month == SymmetryMonth::Irvember {
            7
        } else if T {
            (28 + (7 * div_floor(modulus(month.to_u8() as i64, 3), 2))) as u8
        } else {
            (30 + div_floor(modulus(month.to_u8() as i64, 3), 2)) as u8
        }
    }

    /// The month of the date.
    pub fn month(self) -> (r: SymmetryMonth)
        ensures
            symmetry_month_number(r) == self.common_view().month,
    {
        proof {
            use_type_invariant(&self);
        }
        SymmetryMonth::from_u8(self.0.month).unwrap()
    }

    /// Attempts to build a Symmetry date.
    pub fn try_new(year: i32, month: SymmetryMonth, day: u8) -> (r: Result<Self, CalendarError>)
        ensures
            ({
                let d = CommonDate { year, month: symmetry_month_number(month) as u8, day };
                &&& sym_error(T, d) is None ==> (r matches Ok(x) && x.common_view() == d)
                &&& sym_error(T, d) matches Some(e) ==> r == Err::<Self, CalendarError>(e)
            }),
    {
        Self::try_from_common_date(CommonDate::new(year, month.to_u8(), day))
    }
}

impl<const T: bool, const U: bool> HasLeapYears for Symmetry<T, U> {
    open spec fn leap_spec(year: int) -> bool {
        sym_leap(U, year)
    }

    fn is_leap(sym_year: i32) -> (r: bool) {
        let p = Self::params();
        let sym_year = sym_year as i64;
        assert(-0x100_0000_0000 <= p.l * sym_year <= 0x100_0000_0000) by (nonlinear_arith)
            requires
                1 <= p.l <= 100,
                i32::MIN <= sym_year <= i32::MAX,
        ;
        let r = modulus((p.l * sym_year) + p.k, p.c) < p.l;
        assert(Self::leap_spec(sym_year as int) == sym_leap(U, sym_year as int));
        r
    }
}

impl<const T: bool, const U: bool> Epoch for Symmetry<T, U> {
    open spec fn epoch_spec() -> int {
        1
    }

    fn epoch() -> (r: i64) {
        let r = Gregorian::epoch();
        assert(Self::epoch_spec() == 1);
        r
    }
}

impl<const T: bool, const U: bool> ToFromCommonDate for Symmetry<T, U> {
    closed spec fn common_view(self) -> CommonDate {
        self.0
    }

    open spec fn ymd_error(d: CommonDate) -> Option<CalendarError> {
        sym_error(T, d)
    }

    open spec fn year_start_spec(year: int) -> CommonDate {
        CommonDate { year: year as i32, month: 1, day: 1 }
    }

    open spec fn year_end_spec(year: int) -> CommonDate {
        if sym_leap(U, year) {
            CommonDate { year: year as i32, month: 13, day: 7 }
        } else {
            CommonDate { year: year as i32, month: 12, day: sym_month_length(T, 12) as u8 }
        }
    }

    fn to_common_date(self) -> (r: CommonDate) {
        proof {
            use_type_invariant(&self);
        }
        self.0
    }

    fn from_common_date_unchecked(d: CommonDate) -> (r: Self) {
        Symmetry(d)
    }

    fn valid_ymd(date: CommonDate) -> (r: Result<(), CalendarError>) {
        let month_opt = SymmetryMonth::from_u8(date.month);
        if month_opt.is_none() {
            Err(CalendarError::InvalidMonth)
        } else if date.day < 1 {
            Err(CalendarError::InvalidDay)
        } else if date.day > Self::days_in_month(month_opt.unwrap()) {
            Err(CalendarError::InvalidDay)
        } else {
            Ok(())
        }
    }

    fn year_start_date(year: i32) -> (r: CommonDate) {
        CommonDate::new(year, 1, 1)
    }

    fn year_end_date(year: i32) -> (r: CommonDate) {
        let m = if Self::is_leap(year) {
            SymmetryMonth::Irvember
        } else {
            SymmetryMonth::December
        };
        CommonDate::new(year, m.to_u8(), Self::days_in_month(m))
    }
}

impl<const T: bool, const U: bool> ToFromOrdinalDate for Symmetry<T, U> {
    open spec fn ordinal_error(ord: OrdinalDate) -> Option<CalendarError> {
        if 1 <= ord.day_of_year <= sym_year_length(U, ord.year as int) {
            None
        } else {
            Some(CalendarError::InvalidDayOfYear)
        }
    }

    open spec fn ordinal_of(d: CommonDate) -> OrdinalDate {
        OrdinalDate { year: d.year, day_of_year: sym_day_of_year(T, d) as u16 }
    }

    open spec fn fixed_of_ordinal(ord: OrdinalDate) -> int {
        sym_new_year(U, ord.year as int, 1) + ord.day_of_year - 1
    }

    fn valid_ordinal(ord: OrdinalDate) -> (r: Result<(), CalendarError>) {
        let epoch = Self::epoch();
        let new_year_0 = Self::new_year_day_wide(ord.year as i64, epoch);
        let new_year_1 = Self::new_year_day_wide(ord.year as i64 + 1, epoch);
        proof {
            law_sym_year_length(U, ord.year as int, 1);
        }
        let diff = new_year_1 - new_year_0;
        if (ord.day_of_year as i64) < 1 || (ord.day_of_year as i64) > diff {
            Err(CalendarError::InvalidDayOfYear)
        } else {
            Ok(())
        }
    }

    fn ordinal_from_fixed(fixed_date: i64) -> (r: OrdinalDate) {
        let (sym_year, start_of_year) = Self::year_from_fixed(fixed_date, Self::epoch());
        proof {
            law_sym_year_length(U, sym_year as int, 1);
        }
        let day_of_year = (fixed_date - start_of_year + 1) as u16;
        OrdinalDate { year: sym_year, day_of_year: day_of_year }
    }

    fn to_ordinal(self) -> (r: OrdinalDate) {
        proof {
            use_type_invariant(&self);
        }
        OrdinalDate { year: self.0.year, day_of_year: Self::day_of_year(self.0.month, self.0.day) }
    }

    fn from_ordinal_unchecked(ord: OrdinalDate) -> (r: Self) {
        let (sym_year, day_of_year) = (ord.year, ord.day_of_year);
        proof {
            lemma_sym_month_of_ordinal(T, day_of_year as int);
        }
        let week_of_year = (day_of_year + 6) / 7;
        let quarter = (4 * week_of_year + 52) / 53;
        let day_of_quarter = day_of_year - (91 * (quarter - 1));
        let week_of_quarter = (day_of_quarter + 6) / 7;
        let month_of_quarter = if T {
            (2 * week_of_quarter + 8) / 9
        } else {
            (2 * day_of_quarter + 60) / 61
        };
        let sym_month = (3 * (quarter - 1) + month_of_quarter) as u8;
        let sym_day = (day_of_year - Self::days_before_month(sym_month)) as u8;
        Symmetry(CommonDate::new(sym_year, sym_month, sym_day))
    }
}

impl<const T: bool, const U: bool> ToFixed for Symmetry<T, U> {
    open spec fn fixed_spec(self) -> int {
        sym_fixed(T, U, self.common_view())
    }

    fn to_fixed(self) -> (r: i64) {
        proof {
            use_type_invariant(&self);
        }
        let new_year_day = Self::new_year_day_unchecked(self.0.year, Self::epoch());
        let day_of_year = Self::day_of_year(self.0.month, self.0.day) as i64;
        new_year_day + day_of_year - 1
    }
}

impl<const T: bool, const U: bool> FromFixed for Symmetry<T, U> {
    closed spec fn from_fixed_spec(date: int) -> Self {
        Symmetry(sym_from_fixed(T, U, date))
    }

    fn from_fixed(fixed_date: i64) -> (r: Self)
        ensures
            r.common_view() == sym_from_fixed(T, U, fixed_date as int),
    {
        let ord = Self::ordinal_from_fixed(fixed_date);
        let r = Self::from_ordinal_unchecked(ord);
        proof {
            use_type_invariant(&r);
            lemma_sym_date_of_unique(T, r.0);
            let y = sym_year_of(U, fixed_date as int, 1);
            law_sym_year_length(U, ord.year as int, 1);
            lemma_sym_year_unique(U, y, ord.year as int, fixed_date as int, 1);
        }
        r
    }
}

impl<const T: bool, const U: bool> Quarter for Symmetry<T, U> {
    open spec fn quarter_spec(self) -> int {
        if self.common_view().month == 13 {
            4
        } else {
            (self.common_view().month - 1) / 3 + 1
        }
    }

    fn quarter(self) -> (r: u8) {
        match self.month() {
            SymmetryMonth::Irvember => 4,
            m => (((m.to_u8()) - 1) / 3) + 1,
        }
    }
}

/// Rounding up a quotient: `(a + m - 1) / m` is the least `s` with `a <= s * m`.
proof fn lemma_ceil_div(a: int, m: int, s: int)
    requires
        m > 0,
        s == (a + m - 1) / m,
    ensures
        (s - 1) * m < a <= s * m,
{
    lemma_div_mod_parts(a + m - 1, m);
    assert((s - 1) * m < a <= s * m) by (nonlinear_arith)
        requires
            a + m - 1 == m * s + (a + m - 1) % m,
            0 <= (a + m - 1) % m < m,
    ;
}

/// The year estimate from the mean year is at most one year late, and the year after next
/// starts after the day.
proof fn lemma_sym_year_bracket(u: bool, fixed: int, epoch: int, s: int)
    requires
        (s - 1) * sym_cycle_days(u) < (fixed - epoch) * sym_cycle(u) <= s * sym_cycle_days(u),
    ensures
        sym_new_year(u, s - 1, epoch) <= fixed,
        fixed < sym_new_year(u, s + 2, epoch),
{
    lemma_sym_new_year_near(u, s - 1, epoch);
    lemma_sym_new_year_near(u, s + 2, epoch);
    let a = sym_new_year(u, s - 1, epoch) - epoch;
    let b = sym_new_year(u, s + 2, epoch) - epoch;
    let x = fixed - epoch;
    if u {
        assert(293 * a <= (s - 2) * 107016 + 1022);
        assert(293 * b > (s + 1) * 107016 + 1022 - 2051);
        assert((s - 1) * 107016 < x * 293 <= s * 107016);
    } else {
        assert(389 * a <= (s - 2) * 142079 + 1358);
        assert(389 * b > (s + 1) * 142079 + 1358 - 2723);
        assert((s - 1) * 142079 < x * 389 <= s * 142079);
    }
}

/// The estimate `ceil(x * C / M)` of the year of a day `x` days after the epoch lies
/// within range and is at most one year early or late.
proof fn lemma_sym_year_estimate(u: bool, x: int, s: int)
    requires
        2 * FIXED_MIN <= x <= 2 * FIXED_MAX,
        (s - 1) * sym_cycle_days(u) < x * sym_cycle(u) <= s * sym_cycle_days(u),
    ensures
        -200000000 <= s <= 200000000,
{
    if u {
        assert(-200000000 <= s <= 200000000) by (nonlinear_arith)
            requires
                2 * FIXED_MIN <= x <= 2 * FIXED_MAX,
                (s - 1) * 107016 < x * 293 <= s * 107016,
                FIXED_MIN == -17171480576,
                FIXED_MAX == 17171480576,
        ;
    } else {
        assert(-200000000 <= s <= 200000000) by (nonlinear_arith)
            requires
                2 * FIXED_MIN <= x <= 2 * FIXED_MAX,
                (s - 1) * 142079 < x * 389 <= s * 142079,
                FIXED_MIN == -17171480576,
                FIXED_MAX == 17171480576,
        ;
    }
}

} // verus!

verus! {

/// Every day count within the supported range lies in exactly one year.
proof fn lemma_sym_year_exists(u: bool, date: int) -> (y: int)
    requires
        fixed_in_bounds(date),
    ensures
        sym_new_year(u, y, 1) <= date < sym_new_year(u, y + 1, 1),
        y == sym_year_of(u, date, 1),
{
    let x = date - 1;
    let m = sym_cycle_days(u);
    let s = (x * sym_cycle(u) + m - 1) / m;
    lemma_ceil_div(x * sym_cycle(u), m, s);
    lemma_sym_year_bracket(u, date, 1, s);
    law_sym_year_length(u, s - 1, 1);
    law_sym_year_length(u, s, 1);
    law_sym_year_length(u, s + 1, 1);
    let y = if date < sym_new_year(u, s, 1) {
        s - 1
    } else if date < sym_new_year(u, s + 1, 1) {
        s
    } else {
        s + 1
    };
    let w = sym_year_of(u, date, 1);
    lemma_sym_year_unique(u, y, w, date, 1);
    y
}

/// Every day count within the supported range is the day count of a Symmetry date, and
/// `sym_from_fixed` finds it.
pub proof fn law_symmetry_fixed_roundtrip(t: bool, u: bool, date: int)
    requires
        fixed_in_bounds(date),
    ensures
        sym_error(t, sym_from_fixed(t, u, date)) is None,
        sym_fixed(t, u, sym_from_fixed(t, u, date)) == date,
        sym_day_of_year(t, sym_from_fixed(t, u, date)) <= sym_year_length(
            u,
            sym_from_fixed(t, u, date).year as int,
        ),
{
    let y = lemma_sym_year_exists(u, date);
    law_sym_year_length(u, y, 1);
    let doy = date - sym_new_year(u, y, 1) + 1;
    lemma_sym_month_of_ordinal(t, doy);
    let m = sym_month_of_ordinal(t, doy);
    let c = CommonDate {
        year: y as i32,
        month: m as u8,
        day: (doy - sym_days_before_month(t, m)) as u8,
    };
    lemma_sym_year_estimate_bounds(u, date, y);
    lemma_sym_date_of_unique(t, c);
}

/// The year of a day count within the supported range fits in `i32`.
proof fn lemma_sym_year_estimate_bounds(u: bool, date: int, y: int)
    requires
        fixed_in_bounds(date),
        sym_new_year(u, y, 1) <= date < sym_new_year(u, y + 1, 1),
    ensures
        -100000000 <= y <= 100000000,
{
    lemma_sym_new_year_near(u, y, 1);
    lemma_sym_new_year_near(u, y + 1, 1);
    if u {
        assert(-100000000 <= y <= 100000000) by (nonlinear_arith)
            requires
                293 * (sym_new_year(u, y, 1) - 1) > (y - 1) * 107016 + 1022 - 2051,
                293 * (sym_new_year(u, y + 1, 1) - 1) <= y * 107016 + 1022,
                sym_new_year(u, y, 1) <= date < sym_new_year(u, y + 1, 1),
                -17171480576 <= date <= 17171480576,
        ;
    } else {
        assert(-100000000 <= y <= 100000000) by (nonlinear_arith)
            requires
                389 * (sym_new_year(u, y, 1) - 1) > (y - 1) * 142079 + 1358 - 2723,
                389 * (sym_new_year(u, y + 1, 1) - 1) <= y * 142079 + 1358,
                sym_new_year(u, y, 1) <= date < sym_new_year(u, y + 1, 1),
                -17171480576 <= date <= 17171480576,
        ;
    }
}

/// Converting a Symmetry date to its day count and back gives the same date, for every
/// date whose day of year lies within its year (an Irvember date in a common year does not).
pub proof fn law_symmetry_date_roundtrip(t: bool, u: bool, c: CommonDate)
    requires
        sym_error(t, c) is None,
        sym_day_of_year(t, c) <= sym_year_length(u, c.year as int),
    ensures
        sym_from_fixed(t, u, sym_fixed(t, u, c)) == c,
{
    let date = sym_fixed(t, u, c);
    lemma_sym_day_of_year_bounds(t, c);
    law_sym_year_length(u, c.year as int, 1);
    let w = sym_year_of(u, date, 1);
    assert(sym_new_year(u, c.year as int, 1) <= date < sym_new_year(u, c.year + 1, 1));
    lemma_sym_year_unique(u, c.year as int, w, date, 1);
    lemma_sym_date_of_unique(t, c);
}

} // verus!

verus! {

impl<const T: bool, const U: bool> CommonWeekOfYear for Symmetry<T, U> {
    open spec fn fixed_of_date(d: CommonDate) -> int {
        sym_fixed(T, U, d)
    }

    proof fn lemma_fixed_of_date(x: Self) {
    }
}


impl<const T: bool, const U: bool> CalculatedBounds for Symmetry<T, U> {
    open spec fn valid_date(self) -> bool {
        sym_error(T, self.common_view()) is None && sym_day_of_year(T, self.common_view()) <= sym_year_length(
            U,
            self.common_view().year as int,
        )
    }

    proof fn lemma_from_fixed_keeps_day(date: int) {
        law_symmetry_fixed_roundtrip(T, U, date);
    }

    proof fn lemma_to_fixed_and_back(x: Self) {
        law_symmetry_date_roundtrip(T, U, x.common_view());
    }
}

/// The day of the week of a Symmetry date is set by its day of the year alone: day 1 of
/// every year is a Monday.
pub proof fn lemma_sym_weekday(t: bool, u: bool, c: CommonDate)
    ensures
        Weekday::from_fixed_spec(sym_fixed(t, u, c)) == weekday_of_number(
            sym_day_of_year(t, c) % 7,
        ),
{
    let e = c.year - 1;
    let q = (sym_leaps(u) * e + sym_offset(u)) / sym_cycle(u);
    let k = 52 * e + q;
    let doy = sym_day_of_year(t, c);
    assert(sym_fixed(t, u, c) == 7 * k + doy);
    lemma_div_mod_parts(doy, 7);
    lemma_div_in_range(7 * k + doy, 7, k + doy / 7);
}

/// Every Symmetry year starts on a Monday.
pub proof fn law_sym_year_starts_monday(t: bool, u: bool, year: int)
    requires
        i32::MIN <= year <= i32::MAX,
    ensures
        Weekday::from_fixed_spec(sym_fixed(t, u, CommonDate { year: year as i32, month: 1, day: 1 }))
            == Weekday::Monday,
{
    lemma_sym_weekday(t, u, CommonDate { year: year as i32, month: 1, day: 1 });
}

/// In the 4-5-4 arrangement every month starts on a Monday and ends on a Sunday.
pub proof fn law_symmetry454_month_bounds(u: bool, year: int, month: int)
    requires
        i32::MIN <= year <= i32::MAX,
        1 <= month <= 13,
    ensures
        Weekday::from_fixed_spec(
            sym_fixed(true, u, CommonDate { year: year as i32, month: month as u8, day: 1 }),
        ) == Weekday::Monday,
        Weekday::from_fixed_spec(
            sym_fixed(
                true,
                u,
                CommonDate {
                    year: year as i32,
                    month: month as u8,
                    day: sym_month_length(true, month) as u8,
                },
            ),
        ) == Weekday::Sunday,
{
    let first = CommonDate { year: year as i32, month: month as u8, day: 1 };
    let last = CommonDate {
        year: year as i32,
        month: month as u8,
        day: sym_month_length(true, month) as u8,
    };
    lemma_sym_weekday(true, u, first);
    lemma_sym_weekday(true, u, last);
    let k = 4 * (month - 1) + month / 3;
    lemma_div_mod_parts(month, 3);
    lemma_div_in_range(7 * k + 1, 7, k);
    let len = sym_month_length(true, month);
    assert(len == 28 || len == 35 || len == 7);
    lemma_div_in_range(7 * k + len, 7, k + len / 7);
}

/// No Symmetry month has a Friday the 13th.
pub proof fn law_symmetry_no_friday_13(t: bool, u: bool, year: int, month: int)
    requires
        i32::MIN <= year <= i32::MAX,
        1 <= month <= 12,
    ensures
        Weekday::from_fixed_spec(
            sym_fixed(t, u, CommonDate { year: year as i32, month: month as u8, day: 13 }),
        ) != Weekday::Friday,
{
    let c = CommonDate { year: year as i32, month: month as u8, day: 13 };
    lemma_sym_weekday(t, u, c);
    let doy = sym_day_of_year(t, c);
    let qm = (month - 1) / 3;
    lemma_div_mod_parts(month - 1, 3);
    lemma_div_mod_parts(month, 3);
    assert(month / 3 == qm + (if (month - 1) % 3 == 2 { 1int } else { 0int }));
    if t {
        assert(doy == 7 * (4 * (month - 1) + month / 3) + 13);
        lemma_div_in_range(doy, 7, 4 * (month - 1) + month / 3 + 1);
    } else {
        let r = (month - 1) % 3;
        assert(doy == 91 * qm + 30 * r + (if r == 2 { 1int } else { 0int }) + 13);
        if r == 0 {
            lemma_div_in_range(doy, 7, 13 * qm + 1);
        } else if r == 1 {
            lemma_div_in_range(doy, 7, 13 * qm + 6);
        } else {
            lemma_div_in_range(doy, 7, 13 * qm + 10);
        }
    }
}


impl<const T: bool, const U: bool> GuaranteedMonth<SymmetryMonth> for Symmetry<T, U> {
    open spec fn month_number(m: SymmetryMonth) -> int {
        symmetry_month_number(m)
    }

    fn month(self) -> (r: SymmetryMonth) {
        Symmetry::<T, U>::month(self)
    }
}

/// A date's quarter holds its month: January to March (the first three months) in the
/// first, the next three in the second, then the third, and the last three in the fourth.
pub proof fn law_symmetry_quarter<const T: bool, const U: bool>(x: Symmetry<T, U>)
    ensures
        month_in_quarter(x.common_view().month as int, x.quarter_spec()),
{
}

/// The first day of the Symmetry calendars, January 1 of year 1, is January 1 of year 1 in
/// the Gregorian calendar.
pub proof fn law_symmetry_epoch(t: bool, u: bool)
    ensures
        sym_fixed(t, u, CommonDate { year: 1, month: 1, day: 1 }) == gregorian_fixed(CommonDate { year: 1, month: 1, day: 1 }),
{
}

} // verus!
