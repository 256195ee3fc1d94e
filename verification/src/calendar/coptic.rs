use crate::calendar::arith::lemma_div_in_range;
use crate::calendar::arith::lemma_div_mod_parts;
use crate::calendar::arith::lemma_div_monotone;
use crate::calendar::egyptian::days_in_bounds;
use crate::calendar::julian::Julian;
use crate::calendar::prelude::HasLeapYears;
use crate::calendar::prelude::Quarter;
use crate::calendar::prelude::CommonWeekOfYear;
use crate::calendar::prelude::ToFromCommonDate;
use crate::calendar::prelude::ToFromOrdinalDate;
use crate::common::date::CommonDate;
use crate::common::date::OrdinalDate;
use crate::common::error::CalendarError;
use crate::common::math::div_floor;
use crate::common::math::modulus;
use crate::day_count::fixed::fixed_in_bounds;
use crate::day_count::fixed::Epoch;
use crate::day_count::fixed::FromFixed;
use crate::day_count::fixed::ToFixed;
use crate::day_count::fixed::FIXED_MAX;
use crate::day_count::fixed::CalculatedBounds;
use crate::calendar::julian::julian_error;
use crate::calendar::julian::julian_fixed;
use crate::calendar::julian::julian_from_fixed;
use crate::calendar::julian::julian_leap;
use crate::calendar::julian::lemma_julian_from_fixed_unique;
use crate::calendar::prelude::GuaranteedMonth;
use crate::calendar::prelude::month_in_quarter;
use vstd::prelude::*;

verus! {

/// The day count of the first day of the Coptic era.
pub const COPTIC_EPOCH_RD: i64 = 103605;

/// A month of the Coptic calendar; the thirteenth holds the epagomenal days.
#[derive(Debug, Clone, Copy, PartialEq, Eq, PartialOrd, Ord, Hash, Structural)]
pub enum CopticMonth {
    Thoout,
    Paope,
    Athor,
    Koiak,
    Tobe,
    Meshir,
    Paremotep,
    Parmoute,
    Pashons,
    Paone,
    Epep,
    Mesore,
    Epagomene,
}

/// The number of each value of `CopticMonth`.
pub open spec fn coptic_month_number(m: CopticMonth) -> int {
    match m {
        CopticMonth::Thoout => 1,
        CopticMonth::Paope => 2,
        CopticMonth::Athor => 3,
        CopticMonth::Koiak => 4,
        CopticMonth::Tobe => 5,
        CopticMonth::Meshir => 6,
        CopticMonth::Paremotep => 7,
        CopticMonth::Parmoute => 8,
        CopticMonth::Pashons => 9,
        CopticMonth::Paone => 10,
        CopticMonth::Epep => 11,
        CopticMonth::Mesore => 12,
        CopticMonth::Epagomene => 13,
    }
}

impl CopticMonth {
    /// The number of the value.
    pub fn to_u8(self) -> (r: u8)
        ensures
            r == coptic_month_number(self),
    {
        match self {
            CopticMonth::Thoout => 1,
            CopticMonth::Paope => 2,
            CopticMonth::Athor => 3,
            CopticMonth::Koiak => 4,
            CopticMonth::Tobe => 5,
            CopticMonth::Meshir => 6,
            CopticMonth::Paremotep => 7,
            CopticMonth::Parmoute => 8,
            CopticMonth::Pashons => 9,
            CopticMonth::Paone => 10,
            CopticMonth::Epep => 11,
            CopticMonth::Mesore => 12,
            CopticMonth::Epagomene => 13,
        }
    }

    /// The value with the given number, if there is one.
    pub fn from_u8(n: u8) -> (r: Option<CopticMonth>)
        ensures
            1 <= n <= 13 ==> (r matches Some(m) && coptic_month_number(m) == n),
            !(1 <= n <= 13) ==> r is None,
    {
        match n {
            1 => Some(CopticMonth::Thoout),
            2 => Some(CopticMonth::Paope),
            3 => Some(CopticMonth::Athor),
            4 => Some(CopticMonth::Koiak),
            5 => Some(CopticMonth::Tobe),
            6 => Some(CopticMonth::Meshir),
            7 => Some(CopticMonth::Paremotep),
            8 => Some(CopticMonth::Parmoute),
            9 => Some(CopticMonth::Pashons),
            10 => Some(CopticMonth::Paone),
            11 => Some(CopticMonth::Epep),
            12 => Some(CopticMonth::Mesore),
            13 => Some(CopticMonth::Epagomene),
            _ => None,
        }
    }
}

/// The Coptic leap year rule: the year before each year divisible by four.
pub open spec fn coptic_leap(y: int) -> bool {
    y % 4 == 3
}

/// The length of a month of the thirteen-month Coptic scheme.
pub open spec fn coptic_month_length(leap: bool, m: int) -> int {
    if m == 13 {
        if leap {
            6
        } else {
            5
        }
    } else {
        30
    }
}

/// Why a year, month and day is not a date of the Coptic scheme.
pub open spec fn coptic_error(d: CommonDate) -> Option<CalendarError> {
    if d.month < 1 || d.month > 13 {
        Some(CalendarError::InvalidMonth)
    } else if d.day < 1 {
        Some(CalendarError::InvalidDay)
    } else if d.day > coptic_month_length(coptic_leap(d.year as int), d.month as int) {
        Some(CalendarError::InvalidDay)
    } else {
        None
    }
}

/// The number of days before a year of the Coptic scheme, counted from the day before its epoch.
pub open spec fn coptic_prior_days(y: int) -> int {
    365 * (y - 1) + y / 4
}

/// The day of year of a date of the Coptic scheme.
pub open spec fn coptic_day_of_year(d: CommonDate) -> int {
    30 * (d.month - 1) + d.day
}

/// The day count of a date of the Coptic scheme with the given epoch.
pub open spec fn coptic_scheme_fixed(epoch: int, d: CommonDate) -> int {
    epoch - 1 + coptic_prior_days(d.year as int) + coptic_day_of_year(d)
}

/// The date of the Coptic scheme with the given epoch that falls on a day count.
pub open spec fn coptic_scheme_from_fixed(epoch: int, date: int) -> CommonDate {
    choose|c: CommonDate| coptic_error(c) is None && coptic_scheme_fixed(epoch, c) == date
}

/// The year of the Coptic scheme that holds the day `u` days after the epoch.
pub open spec fn coptic_year_of_days(u: int) -> int {
    (4 * u + 1463) / 1461
}

/// Splitting a day count into a year and a day of year in the Coptic scheme.
pub proof fn lemma_coptic_year_of_days(u: int)
    requires
        days_in_bounds(u),
    ensures
        1 <= u + 1 - coptic_prior_days(coptic_year_of_days(u)) <= 365 + (if coptic_leap(
            coptic_year_of_days(u),
        ) {
            1int
        } else {
            0int
        }),
        -50000000 <= coptic_year_of_days(u) <= 50000000,
{
    let k = u / 1461;
    let v = u % 1461;
    lemma_div_mod_parts(u, 1461);
    let t = 4 * u + 1463;
    let j: int = if v < 365 {
        0
    } else if v < 730 {
        1
    } else if v < 1096 {
        2
    } else {
        3
    };
    lemma_div_in_range(t, 1461, 4 * k + j + 1);
    let y = 4 * k + j + 1;
    lemma_div_in_range(y, 4, k + (if j == 3 { 1int } else { 0int }));
    lemma_div_monotone(t, 4 * (FIXED_MAX + 500000) + 1463, 1461);
    lemma_div_monotone(4 * (-(FIXED_MAX + 500000)) + 1463, t, 1461);
    lemma_div_in_range(4 * (FIXED_MAX + 500000) + 1463, 1461, 47014321);
    lemma_div_in_range(4 * (-(FIXED_MAX + 500000)) + 1463, 1461, -47014320);
}

/// The count of prior days grows by the length of each year.
proof fn lemma_coptic_prior_monotone(a: int, b: int)
    requires
        a < b,
    ensures
        coptic_prior_days(a) + 365 + (if coptic_leap(a) {
            1int
        } else {
            0int
        }) <= coptic_prior_days(b),
{
    lemma_div_mod_parts(a, 4);
    lemma_div_mod_parts(a + 1, 4);
    lemma_div_monotone(a + 1, b, 4);
    if a % 4 == 3 {
        lemma_div_in_range(a + 1, 4, a / 4 + 1);
    } else {
        lemma_div_in_range(a + 1, 4, a / 4);
    }
}

/// Different valid dates of the Coptic scheme have different day counts.
pub proof fn lemma_coptic_fixed_injective(epoch: int, d1: CommonDate, d2: CommonDate)
    requires
        coptic_error(d1) is None,
        coptic_error(d2) is None,
        coptic_scheme_fixed(epoch, d1) == coptic_scheme_fixed(epoch, d2),
    ensures
        d1 == d2,
{
    if d1.year < d2.year {
        lemma_coptic_prior_monotone(d1.year as int, d2.year as int);
    } else if d2.year < d1.year {
        lemma_coptic_prior_monotone(d2.year as int, d1.year as int);
    }
}

/// The date that `from_fixed` finds is the only one with that day count.
pub proof fn lemma_coptic_from_fixed_unique(epoch: int, c: CommonDate, date: int)
    requires
        coptic_error(c) is None,
        coptic_scheme_fixed(epoch, c) == date,
    ensures
        coptic_scheme_from_fixed(epoch, date) == c,
{
    let w = coptic_scheme_from_fixed(epoch, date);
    assert(coptic_error(w) is None && coptic_scheme_fixed(epoch, w) == date);
    lemma_coptic_fixed_injective(epoch, w, c);
}

/// Every day count near the supported range is the day count of exactly one date of the
/// Coptic scheme, and `coptic_scheme_from_fixed` finds it.
pub proof fn law_coptic_fixed_roundtrip(epoch: int, date: int)
    requires
        days_in_bounds(date - epoch),
    ensures
        coptic_error(coptic_scheme_from_fixed(epoch, date)) is None,
        coptic_scheme_fixed(epoch, coptic_scheme_from_fixed(epoch, date)) == date,
{
    let u = date - epoch;
    lemma_coptic_year_of_days(u);
    let y = coptic_year_of_days(u);
    let doy = u + 1 - coptic_prior_days(y);
    let m = (doy - 1) / 30 + 1;
    lemma_div_mod_parts(doy - 1, 30);
    if m > 13 {
        lemma_div_monotone(390, doy - 1, 30);
        lemma_div_in_range(390, 30, 13);
    }
    let c = CommonDate { year: y as i32, month: m as u8, day: (doy - 30 * (m - 1)) as u8 };
    lemma_coptic_from_fixed_unique(epoch, c, date);
}

/// Converting a valid date of the Coptic scheme to its day count and back gives the same date.
pub proof fn law_coptic_date_roundtrip(epoch: int, c: CommonDate)
    requires
        coptic_error(c) is None,
    ensures
        coptic_scheme_from_fixed(epoch, coptic_scheme_fixed(epoch, c)) == c,
{
    lemma_coptic_from_fixed_unique(epoch, c, coptic_scheme_fixed(epoch, c));
}

/// Finds the year and day of year of a day count in the Coptic scheme with the given epoch.
pub(crate) fn coptic_scheme_ordinal(epoch: i64, date: i64) -> (r: OrdinalDate)
    requires
        -1000000 <= epoch <= 1000000,
        days_in_bounds(date - epoch),
    ensures
        1 <= r.day_of_year <= 365 + (if coptic_leap(r.year as int) {
            1int
        } else {
            0int
        }),
        epoch - 1 + coptic_prior_days(r.year as int) + r.day_of_year == date,
{
    proof {
        lemma_coptic_year_of_days(date - epoch);
    }
    let year = div_floor(4 * (date - epoch) + 1463, 1461);
    let year_start = epoch - 1 + 365 * (year - 1) + div_floor(year, 4) + 1;
    let doy = ((date - year_start) + 1) as u16;
    OrdinalDate { year: year as i32, day_of_year: doy }
}

/// Finds the month and day of a valid day of year in the Coptic scheme.
pub(crate) fn coptic_scheme_month_day(leap: bool, doy: u16) -> (r: (u8, u8))
    requires
        1 <= doy <= 365 + (if leap {
            1int
        } else {
            0int
        }),
    ensures
        1 <= r.0 <= 13,
        1 <= r.1 <= coptic_month_length(leap, r.0 as int),
        30 * (r.0 - 1) + r.1 == doy,
{
    let month = ((doy - 1) / 30 + 1) as u8;
    proof {
        lemma_div_mod_parts(doy - 1, 30);
        if month > 13 {
            lemma_div_monotone(390, doy - 1, 30);
            lemma_div_in_range(390, 30, 13);
        }
    }
    let month_start = 30 * ((month as u16) - 1) + 1;
    let day = (doy - month_start + 1) as u8;
    (month, day)
}

/// Represents a date in the Coptic calendar.
#[derive(Debug, Clone, Copy, PartialEq, Eq, Structural)]
pub struct Coptic(CommonDate);

impl Coptic {
    #[verifier::type_invariant]
    spec fn valid(self) -> bool {
        coptic_error(self.0) is None
    }

    /// The length of a month in a given year.
    pub fn month_length(year: i32, month: CopticMonth) -> (r: u8)
        ensures
            r == coptic_month_length(coptic_leap(year as int), coptic_month_number(month)),
    {
        match (month, Coptic::is_leap(year)) {
            (CopticMonth::Epagomene, false) => 5,
            (CopticMonth::Epagomene, true) => 6,
            (_, _) => 30,
        }
    }

    /// The month of the date.
    pub fn month(self) -> (r: CopticMonth)
        ensures
            coptic_month_number(r) == self.common_view().month,
    {
        proof {
            use_type_invariant(&self);
        }
        CopticMonth::from_u8(self.0.month).unwrap()
    }

    /// Attempts to build a Coptic date.
    pub fn try_new(year: i32, month: CopticMonth, day: u8) -> (r: Result<Coptic, CalendarError>)
        ensures
            ({
                let d = CommonDate { year, month: coptic_month_number(month) as u8, day };
                &&& coptic_error(d) is None ==> (r matches Ok(x) && x.common_view() == d)
                &&& coptic_error(d) matches Some(e) ==> r == Err::<Coptic, CalendarError>(e)
            }),
    {
        Coptic::try_from_common_date(CommonDate::new(year, month.to_u8(), day))
    }
}

impl HasLeapYears for Coptic {
    open spec fn leap_spec(year: int) -> bool {
        coptic_leap(year)
    }

    fn is_leap(year: i32) -> (r: bool) {
        assert(Self::leap_spec(year as int) == coptic_leap(year as int));
        modulus(year as i64, 4) == 3
    }
}

impl ToFromCommonDate for Coptic {
    closed spec fn common_view(self) -> CommonDate {
        self.0
    }

    open spec fn ymd_error(d: CommonDate) -> Option<CalendarError> {
        coptic_error(d)
    }

    open spec fn year_start_spec(year: int) -> CommonDate {
        CommonDate { year: year as i32, month: 1, day: 1 }
    }

    open spec fn year_end_spec(year: int) -> CommonDate {
        CommonDate {
            year: year as i32,
            month: 13,
            day: coptic_month_length(coptic_leap(year), 13) as u8,
        }
    }

    fn to_common_date(self) -> (r: CommonDate) {
        proof {
            use_type_invariant(&self);
        }
        self.0
    }

    fn from_common_date_unchecked(d: CommonDate) -> (r: Self) {
        Coptic(d)
    }

    fn valid_ymd(date: CommonDate) -> (r: Result<(), CalendarError>) {
        let month_opt = CopticMonth::from_u8(date.month);
        match month_opt {
            None => Err(CalendarError::InvalidMonth),
            Some(m) => {
                if date.day < 1 {
                    Err(CalendarError::InvalidDay)
                } else if date.day > Coptic::month_length(date.year, m) {
                    Err(CalendarError::InvalidDay)
                } else {
                    Ok(())
                }
            },
        }
    }

    fn year_start_date(year: i32) -> (r: CommonDate) {
        CommonDate::new(year, 1, 1)
    }

    fn year_end_date(year: i32) -> (r: CommonDate) {
        let m = CopticMonth::Epagomene;
        CommonDate::new(year, m.to_u8(), Coptic::month_length(year, m))
    }
}

impl ToFromOrdinalDate for Coptic {
    open spec fn ordinal_error(ord: OrdinalDate) -> Option<CalendarError> {
        if 1 <= ord.day_of_year <= 365 + (if coptic_leap(ord.year as int) {
            1int
        } else {
            0int
        }) {
            None
        } else {
            Some(CalendarError::InvalidDayOfYear)
        }
    }

    open spec fn ordinal_of(d: CommonDate) -> OrdinalDate {
        OrdinalDate { year: d.year, day_of_year: coptic_day_of_year(d) as u16 }
    }

    open spec fn fixed_of_ordinal(ord: OrdinalDate) -> int {
        COPTIC_EPOCH_RD - 1 + coptic_prior_days(ord.year as int) + ord.day_of_year
    }

    fn valid_ordinal(ord: OrdinalDate) -> (r: Result<(), CalendarError>) {
        let correction: u16 = if Coptic::is_leap(ord.year) {
            1
        } else {
            0
        };
        if ord.day_of_year > 0 && ord.day_of_year <= (365 + correction) {
            Ok(())
        } else {
            Err(CalendarError::InvalidDayOfYear)
        }
    }

    fn ordinal_from_fixed(fixed_date: i64) -> (r: OrdinalDate) {
        coptic_scheme_ordinal(Coptic::epoch(), fixed_date)
    }

    fn to_ordinal(self) -> (r: OrdinalDate)
        ensures
            Self::ordinal_error(r) is None,
    {
        proof {
            use_type_invariant(&self);
        }
        OrdinalDate {
            year: self.0.year,
            day_of_year: (30 * ((self.0.month as u16) - 1) + (self.0.day as u16)),
        }
    }

    fn from_ordinal_unchecked(ord: OrdinalDate) -> (r: Self) {
        let leap = Coptic::is_leap(ord.year);
        let (month, day) = coptic_scheme_month_day(leap, ord.day_of_year);
        Coptic(CommonDate::new(ord.year, month, day))
    }
}

impl Epoch for Coptic {
    open spec fn epoch_spec() -> int {
        103605
    }

    fn epoch() -> (r: i64) {
        // The era of the Martyrs starts on August 29, 284 in the Julian calendar.
        let start = CommonDate::new(284, 8, 29);
        let j = Julian::try_from_common_date(start);
        proof {
            assert(crate::calendar::julian::julian_error(start) is None);
        }
        let r = j.unwrap().to_fixed();
        assert(r == 103605);
        assert(Self::epoch_spec() == 103605);
        r
    }
}

impl ToFixed for Coptic {
    open spec fn fixed_spec(self) -> int {
        coptic_scheme_fixed(COPTIC_EPOCH_RD as int, self.common_view())
    }

    fn to_fixed(self) -> (r: i64) {
        proof {
            use_type_invariant(&self);
        }
        let year = self.0.year as i64;
        let epoch = Coptic::epoch();
        let doy = self.to_ordinal().day_of_year as i64;
        epoch - 1 + (365 * (year - 1)) + div_floor(year, 4) + doy
    }
}

impl FromFixed for Coptic {
    closed spec fn from_fixed_spec(date: int) -> Self {
        Coptic(coptic_scheme_from_fixed(COPTIC_EPOCH_RD as int, date))
    }

    fn from_fixed(date: i64) -> (r: Self)
        ensures
            r.common_view() == coptic_scheme_from_fixed(COPTIC_EPOCH_RD as int, date as int),
    {
        let ord = Coptic::ordinal_from_fixed(date);
        let r = Coptic::from_ordinal_unchecked(ord);
        proof {
            use_type_invariant(&r);
            lemma_coptic_from_fixed_unique(COPTIC_EPOCH_RD as int, r.0, date as int);
        }
        r
    }
}

impl Quarter for Coptic {
    open spec fn quarter_spec(self) -> int {
        if self.common_view().month == 13 {
            4
        } else {
            (self.common_view().month - 1) / 3 + 1
        }
    }

    fn quarter(self) -> (r: u8) {
        if self.month() == CopticMonth::Epagomene {
            4
        } else {
            ((self.month().to_u8() - 1) / 3) + 1
        }
    }
}

impl CommonWeekOfYear for Coptic {
    open spec fn fixed_of_date(d: CommonDate) -> int {
        coptic_scheme_fixed(COPTIC_EPOCH_RD as int, d)
    }

    proof fn lemma_fixed_of_date(x: Self) {
    }
}


impl CalculatedBounds for Coptic {
    open spec fn valid_date(self) -> bool {
        coptic_error(self.common_view()) is None
    }

    proof fn lemma_from_fixed_keeps_day(date: int) {
        law_coptic_fixed_roundtrip(COPTIC_EPOCH_RD as int, date);
    }

    proof fn lemma_to_fixed_and_back(x: Self) {
        law_coptic_date_roundtrip(COPTIC_EPOCH_RD as int, x.common_view());
    }
}

/// The Julian year numbered by its astronomical year (year 0 is 1 BC, -1 is 2 BC).
pub open spec fn julian_year_of_astronomical_year(a: int) -> int {
    if a <= 0 {
        a - 1
    } else {
        a
    }
}

/// Coptic Christmas, Koiak 29, falls on Julian December 25, or December 26 in the Julian
/// year before a leap year; Coptic year `y` ends in the Julian year with astronomical number
/// `y + 283`.
pub proof fn law_coptic_christmas(y: int)
    requires
        i32::MIN + 300 <= y <= i32::MAX - 300,
    ensures
        ({
            let a = y + 283;
            julian_from_fixed(
                coptic_scheme_fixed(
                    COPTIC_EPOCH_RD as int,
                    CommonDate { year: y as i32, month: 4, day: 29 },
                ),
            ) == CommonDate {
                year: julian_year_of_astronomical_year(a) as i32,
                month: 12,
                day: if a % 4 == 3 {
                    26
                } else {
                    25
                },
            }
        }),
{
    let a = y + 283;
    let c = CommonDate {
        year: julian_year_of_astronomical_year(a) as i32,
        month: 12,
        day: if a % 4 == 3 {
            26
        } else {
            25
        },
    };
    lemma_div_mod_parts(a, 4);
    lemma_div_mod_parts(a - 1, 4);
    lemma_div_mod_parts(a - 3, 4);
    lemma_div_mod_parts(y, 4);
    lemma_div_mod_parts(c.year as int, 4);
    assert(julian_leap(c.year as int) == (a % 4 == 0));
    assert(julian_fixed(c) == coptic_scheme_fixed(
        COPTIC_EPOCH_RD as int,
        CommonDate { year: y as i32, month: 4, day: 29 },
    ));
    lemma_julian_from_fixed_unique(c, julian_fixed(c));
}

/// The Coptic new year, Thoout 1 (the feast of Neyrouz), falls on Julian August 29, or
/// August 30 in the Julian year before a leap year.
pub proof fn law_coptic_new_year(y: int)
    requires
        i32::MIN + 300 <= y <= i32::MAX - 300,
    ensures
        ({
            let a = y + 283;
            julian_from_fixed(
                coptic_scheme_fixed(
                    COPTIC_EPOCH_RD as int,
                    CommonDate { year: y as i32, month: 1, day: 1 },
                ),
            ) == CommonDate {
                year: julian_year_of_astronomical_year(a) as i32,
                month: 8,
                day: if a % 4 == 3 {
                    30
                } else {
                    29
                },
            }
        }),
{
    let a = y + 283;
    let c = CommonDate {
        year: julian_year_of_astronomical_year(a) as i32,
        month: 8,
        day: if a % 4 == 3 {
            30
        } else {
            29
        },
    };
    lemma_div_mod_parts(a, 4);
    lemma_div_mod_parts(a - 1, 4);
    lemma_div_mod_parts(a - 3, 4);
    lemma_div_mod_parts(y, 4);
    lemma_div_mod_parts(c.year as int, 4);
    assert(julian_leap(c.year as int) == (a % 4 == 0));
    assert(julian_fixed(c) == coptic_scheme_fixed(
        COPTIC_EPOCH_RD as int,
        CommonDate { year: y as i32, month: 1, day: 1 },
    ));
    lemma_julian_from_fixed_unique(c, julian_fixed(c));
}

/// January 1 of a Julian leap year is Tobe 5 of a common Coptic year, which follows a
/// Coptic leap year.
pub proof fn law_coptic_julian_leap_years(jy: int)
    requires
        0 < jy <= i32::MAX,
        julian_leap(jy),
    ensures
        coptic_scheme_from_fixed(
            COPTIC_EPOCH_RD as int,
            julian_fixed(CommonDate { year: jy as i32, month: 1, day: 1 }),
        ) == (CommonDate { year: (jy - 284) as i32, month: 5, day: 5 }),
        !coptic_leap(jy - 284),
        coptic_leap(jy - 285),
{
    let c = CommonDate { year: (jy - 284) as i32, month: 5, day: 5 };
    lemma_div_mod_parts(jy, 4);
    lemma_div_mod_parts(jy - 1, 4);
    lemma_div_mod_parts(jy - 284, 4);
    lemma_div_mod_parts(jy - 285, 4);
    assert(coptic_scheme_fixed(COPTIC_EPOCH_RD as int, c) == julian_fixed(
        CommonDate { year: jy as i32, month: 1, day: 1 },
    ));
    lemma_coptic_from_fixed_unique(COPTIC_EPOCH_RD as int, c, coptic_scheme_fixed(
        COPTIC_EPOCH_RD as int,
        c,
    ));
}

/// A Coptic leap year comes before each year divisible by 4.
pub proof fn law_coptic_leap_before_multiple_of_four(y: int)
    ensures
        coptic_leap(y) == ((y + 1) % 4 == 0),
{
    lemma_div_mod_parts(y, 4);
    lemma_div_mod_parts(y + 1, 4);
}


impl GuaranteedMonth<CopticMonth> for Coptic {
    open spec fn month_number(m: CopticMonth) -> int {
        coptic_month_number(m)
    }

    fn month(self) -> (r: CopticMonth) {
        Coptic::month(self)
    }
}

/// A date's quarter holds its month: January to March (the first three months) in the
/// first, the next three in the second, then the third, and the last three in the fourth.
/// Epagomene, the thirteenth month, is in the fourth quarter.
pub proof fn law_coptic_quarter(x: Coptic)
    ensures
        month_in_quarter(x.common_view().month as int, x.quarter_spec()),
        x.common_view().month as int == 13 ==> x.quarter_spec() == 4,
{
}

/// The first day of the Coptic calendar, 1 Thoout of year 1, is August 29 of AD 284 in the
/// Julian calendar.
pub proof fn law_coptic_epoch()
    ensures
        coptic_scheme_fixed(COPTIC_EPOCH_RD as int, CommonDate { year: 1, month: 1, day: 1 }) == julian_fixed(CommonDate { year: 284, month: 8, day: 29 }),
{
}

} // verus!
