use crate::calendar::arith::lemma_div_in_range;
use crate::calendar::arith::lemma_div_mod_parts;
use crate::calendar::arith::lemma_div_monotone;
use crate::calendar::gregorian::gregorian_from_fixed;
use crate::calendar::gregorian::gregorian_leap;
use crate::calendar::gregorian::gregorian_ordinal_valid;
use crate::calendar::gregorian::gregorian_prior_elapsed;
use crate::calendar::gregorian::lemma_gregorian_prior_monotone;
use crate::calendar::gregorian::solar_year_length;
use crate::calendar::gregorian::Gregorian;
use crate::calendar::prelude::HasIntercalaryDays;
use crate::calendar::prelude::HasLeapYears;
use crate::calendar::prelude::Perennial;
use crate::calendar::prelude::Quarter;
use crate::calendar::prelude::ToFromCommonDate;
use crate::calendar::prelude::ToFromOrdinalDate;
use crate::common::date::CommonDate;
use crate::common::date::OrdinalDate;
use crate::common::error::CalendarError;
use crate::common::math::adjusted_remainder;
use crate::common::math::modulus;
use crate::day_count::fixed::Epoch;
use crate::day_count::fixed::FromFixed;
use crate::day_count::fixed::ToFixed;
use crate::day_cycle::week::weekday_of_number;
use crate::day_cycle::week::weekday_number;
use crate::day_cycle::week::Weekday;
use crate::day_count::fixed::CalculatedBounds;
use crate::day_count::fixed::fixed_in_bounds;
use crate::calendar::gregorian::gregorian_day_of_year;
use crate::calendar::gregorian::law_gregorian_fixed_roundtrip;
use crate::calendar::gregorian::lemma_gregorian_fixed_in_year;
use crate::calendar::gregorian::gregorian_fixed;
use crate::calendar::prelude::GuaranteedMonth;
use crate::calendar::prelude::month_in_quarter;
use vstd::prelude::*;

verus! {

/// A month of the Cotsworth (International Fixed) calendar.
#[derive(Debug, Clone, Copy, PartialEq, Eq, PartialOrd, Ord, Hash, Structural)]
pub enum CotsworthMonth {
    January,
    February,
    March,
    April,
    May,
    June,
    Sol,
    July,
    August,
    September,
    October,
    November,
    December,
}

/// The number of each value of `CotsworthMonth`.
pub open spec fn cotsworth_month_number(m: CotsworthMonth) -> int {
    match m {
        CotsworthMonth::January => 1,
        CotsworthMonth::February => 2,
        CotsworthMonth::March => 3,
        CotsworthMonth::April => 4,
        CotsworthMonth::May => 5,
        CotsworthMonth::June => 6,
        CotsworthMonth::Sol => 7,
        CotsworthMonth::July => 8,
        CotsworthMonth::August => 9,
        CotsworthMonth::September => 10,
        CotsworthMonth::October => 11,
        CotsworthMonth::November => 12,
        CotsworthMonth::December => 13,
    }
}

impl CotsworthMonth {
    /// The number of the value.
    pub fn to_u8(self) -> (r: u8)
        ensures
            r == cotsworth_month_number(self),
    {
        match self {
            CotsworthMonth::January => 1,
            CotsworthMonth::February => 2,
            CotsworthMonth::March => 3,
            CotsworthMonth::April => 4,
            CotsworthMonth::May => 5,
            CotsworthMonth::June => 6,
            CotsworthMonth::Sol => 7,
            CotsworthMonth::July => 8,
            CotsworthMonth::August => 9,
            CotsworthMonth::September => 10,
            CotsworthMonth::October => 11,
            CotsworthMonth::November => 12,
            CotsworthMonth::December => 13,
        }
    }

    /// The value with the given number, if there is one.
    pub fn from_u8(n: u8) -> (r: Option<CotsworthMonth>)
        ensures
            1 <= n <= 13 ==> (r matches Some(m) && cotsworth_month_number(m) == n),
            !(1 <= n <= 13) ==> r is None,
    {
        match n {
            1 => Some(CotsworthMonth::January),
            2 => Some(CotsworthMonth::February),
            3 => Some(CotsworthMonth::March),
            4 => Some(CotsworthMonth::April),
            5 => Some(CotsworthMonth::May),
            6 => Some(CotsworthMonth::June),
            7 => Some(CotsworthMonth::Sol),
            8 => Some(CotsworthMonth::July),
            9 => Some(CotsworthMonth::August),
            10 => Some(CotsworthMonth::September),
            11 => Some(CotsworthMonth::October),
            12 => Some(CotsworthMonth::November),
            13 => Some(CotsworthMonth::December),
            _ => None,
        }
    }
}

/// A complementary day of the Cotsworth calendar.
#[derive(Debug, Clone, Copy, PartialEq, Eq, PartialOrd, Ord, Hash, Structural)]
pub enum CotsworthComplementaryDay {
    YearDay,
    LeapDay,
}

/// The number of each value of `CotsworthComplementaryDay`.
pub open spec fn cotsworth_complementary_day_number(m: CotsworthComplementaryDay) -> int {
    match m {
        CotsworthComplementaryDay::YearDay => 1,
        CotsworthComplementaryDay::LeapDay => 2,
    }
}

impl CotsworthComplementaryDay {
    /// The number of the value.
    pub fn to_u8(self) -> (r: u8)
        ensures
            r == cotsworth_complementary_day_number(self),
    {
        match self {
            CotsworthComplementaryDay::YearDay => 1,
            CotsworthComplementaryDay::LeapDay => 2,
        }
    }

    /// The value with the given number, if there is one.
    pub fn from_u8(n: u8) -> (r: Option<CotsworthComplementaryDay>)
        ensures
            1 <= n <= 2 ==> (r matches Some(m) && cotsworth_complementary_day_number(m) == n),
            !(1 <= n <= 2) ==> r is None,
    {
        match n {
            1 => Some(CotsworthComplementaryDay::YearDay),
            2 => Some(CotsworthComplementaryDay::LeapDay),
            _ => None,
        }
    }
}

/// The day of year of the leap day, which follows the 28th of June in leap years.
pub const COTSWORTH_LEAP_DAY_ORD: u16 = 169;

/// Why a year, month and day is not a Cotsworth date.
pub open spec fn cotsworth_error(d: CommonDate) -> Option<CalendarError> {
    if d.month < 1 || d.month > 13 {
        Some(CalendarError::InvalidMonth)
    } else if d.day < 1 || d.day > 29 {
        Some(CalendarError::InvalidDay)
    } else if d.day == 29 && !(d.month == 13 || (gregorian_leap(d.year as int) && d.month == 6)) {
        Some(CalendarError::InvalidDay)
    } else {
        None
    }
}

/// Thirteen months of 28 days, with the leap day after June and the year day at the end.
pub open spec fn cotsworth_day_of_year(d: CommonDate) -> int {
    28 * (d.month - 1) + (if d.month > 6 && gregorian_leap(d.year as int) {
        1int
    } else {
        0int
    }) + d.day
}

/// The day count of a Cotsworth date.
pub open spec fn cotsworth_fixed(d: CommonDate) -> int {
    gregorian_prior_elapsed(d.year as int) + cotsworth_day_of_year(d)
}

/// The Cotsworth date of a day count.
pub open spec fn cotsworth_from_fixed(date: int) -> CommonDate {
    choose|c: CommonDate| cotsworth_error(c) is None && cotsworth_fixed(c) == date
}

/// Valid days of year give valid month and day, and their day of year.
pub open spec fn cotsworth_of_ordinal(year: int, doy: int) -> CommonDate {
    let leap = gregorian_leap(year);
    if doy == solar_year_length(leap) {
        CommonDate { year: year as i32, month: 13, day: 29 }
    } else if leap && doy == 169 {
        CommonDate { year: year as i32, month: 6, day: 29 }
    } else {
        let a = if doy < 169 || !leap {
            doy
        } else {
            doy - 1
        };
        CommonDate {
            year: year as i32,
            month: ((a - 1) / 28 + 1) as u8,
            day: (if a % 28 == 0 {
                28
            } else {
                a % 28
            }) as u8,
        }
    }
}

proof fn lemma_cotsworth_of_ordinal(year: int, doy: int)
    requires
        1 <= doy <= solar_year_length(gregorian_leap(year)),
        i32::MIN <= year <= i32::MAX,
    ensures
        cotsworth_error(cotsworth_of_ordinal(year, doy)) is None,
        cotsworth_day_of_year(cotsworth_of_ordinal(year, doy)) == doy,
{
    let leap = gregorian_leap(year);
    if !(doy == solar_year_length(leap) || (leap && doy == 169)) {
        let a = if doy < 169 || !leap {
            doy
        } else {
            doy - 1
        };
        lemma_div_mod_parts(a - 1, 28);
        lemma_div_mod_parts(a, 28);
        if (a - 1) / 28 > 12 {
            lemma_div_monotone(364, a - 1, 28);
            lemma_div_in_range(364, 28, 13);
        }
        if a % 28 == 0 {
            lemma_div_in_range(a - 1, 28, a / 28 - 1);
        } else {
            lemma_div_in_range(a - 1, 28, a / 28);
        }
        if a >= 169 {
            lemma_div_monotone(168, a - 1, 28);
            lemma_div_in_range(168, 28, 6);
        } else {
            lemma_div_monotone(a - 1, 167, 28);
            lemma_div_in_range(167, 28, 5);
        }
    }
}

/// A valid Cotsworth date falls within its year.
proof fn lemma_cotsworth_doy_bounds(d: CommonDate)
    requires
        cotsworth_error(d) is None,
    ensures
        1 <= cotsworth_day_of_year(d) <= solar_year_length(gregorian_leap(d.year as int)),
{
}

/// Different valid Cotsworth dates have different day counts.
pub proof fn lemma_cotsworth_fixed_injective(d1: CommonDate, d2: CommonDate)
    requires
        cotsworth_error(d1) is None,
        cotsworth_error(d2) is None,
        cotsworth_fixed(d1) == cotsworth_fixed(d2),
    ensures
        d1 == d2,
{
    lemma_cotsworth_doy_bounds(d1);
    lemma_cotsworth_doy_bounds(d2);
    if d1.year < d2.year {
        lemma_gregorian_prior_monotone(d1.year as int, d2.year as int);
    } else if d2.year < d1.year {
        lemma_gregorian_prior_monotone(d2.year as int, d1.year as int);
    }
}

/// The date that `from_fixed` finds is the only one with that day count.
pub proof fn lemma_cotsworth_from_fixed_unique(c: CommonDate, date: int)
    requires
        cotsworth_error(c) is None,
        cotsworth_fixed(c) == date,
    ensures
        cotsworth_from_fixed(date) == c,
{
    let w = cotsworth_from_fixed(date);
    assert(cotsworth_error(w) is None && cotsworth_fixed(w) == date);
    lemma_cotsworth_fixed_injective(w, c);
}

/// Converting a valid Cotsworth date to its day count and back gives the same date.
pub proof fn law_cotsworth_date_roundtrip(c: CommonDate)
    requires
        cotsworth_error(c) is None,
    ensures
        cotsworth_from_fixed(cotsworth_fixed(c)) == c,
{
    lemma_cotsworth_from_fixed_unique(c, cotsworth_fixed(c));
}

/// Represents a date in the Cotsworth calendar, also called the International Fixed Calendar.
#[derive(Debug, Clone, Copy, PartialEq, Eq, Structural)]
pub struct Cotsworth(CommonDate);

impl Cotsworth {
    #[verifier::type_invariant]
    spec fn valid(self) -> bool {
        cotsworth_error(self.0) is None
    }

    /// The length of a month: 28 days, with 29 for June in leap years and for December.
    pub fn month_length(year: i32, month: CotsworthMonth) -> (r: u8)
        ensures
            r == (if (cotsworth_month_number(month) == 6 && gregorian_leap(year as int))
                || cotsworth_month_number(month) == 13 {
                29int
            } else {
                28int
            }),
    {
        let approx_len = 7 * 4;
        match (month, Cotsworth::is_leap(year)) {
            (CotsworthMonth::June, true) => approx_len + 1,
            (CotsworthMonth::December, _) => approx_len + 1,
            (_, _) => approx_len,
        }
    }

    /// The month of the date.
    pub fn month(self) -> (r: CotsworthMonth)
        ensures
            cotsworth_month_number(r) == self.common_view().month,
    {
        proof {
            use_type_invariant(&self);
        }
        CotsworthMonth::from_u8(self.0.month).unwrap()
    }

    /// Attempts to build a Cotsworth date.
    pub fn try_new(year: i32, month: CotsworthMonth, day: u8) -> (r: Result<
        Cotsworth,
        CalendarError,
    >)
        ensures
            ({
                let d = CommonDate { year, month: cotsworth_month_number(month) as u8, day };
                &&& cotsworth_error(d) is None ==> (r matches Ok(x) && x.common_view() == d)
                &&& cotsworth_error(d) matches Some(e) ==> r == Err::<Cotsworth, CalendarError>(e)
            }),
    {
        Cotsworth::try_from_common_date(CommonDate::new(year, month.to_u8(), day))
    }
}

impl HasLeapYears for Cotsworth {
    open spec fn leap_spec(year: int) -> bool {
        gregorian_leap(year)
    }

    fn is_leap(c_year: i32) -> (r: bool) {
        let r = Gregorian::is_leap(c_year);
        assert(Self::leap_spec(c_year as int) == gregorian_leap(c_year as int));
        r
    }
}

impl ToFromCommonDate for Cotsworth {
    closed spec fn common_view(self) -> CommonDate {
        self.0
    }

    open spec fn ymd_error(d: CommonDate) -> Option<CalendarError> {
        cotsworth_error(d)
    }

    open spec fn year_start_spec(year: int) -> CommonDate {
        CommonDate { year: year as i32, month: 1, day: 1 }
    }

    open spec fn year_end_spec(year: int) -> CommonDate {
        CommonDate { year: year as i32, month: 13, day: 29 }
    }

    fn to_common_date(self) -> (r: CommonDate) {
        proof {
            use_type_invariant(&self);
        }
        self.0
    }

    fn from_common_date_unchecked(d: CommonDate) -> (r: Self) {
        Cotsworth(d)
    }

    fn valid_ymd(date: CommonDate) -> (r: Result<(), CalendarError>) {
        if date.month < 1 || date.month > 13 {
            Err(CalendarError::InvalidMonth)
        } else if date.day < 1 || date.day > 29 {
            Err(CalendarError::InvalidDay)
        } else if date.day == 29 {
            if date.month == 13 || (Cotsworth::is_leap(date.year) && date.month == 6) {
                Ok(())
            } else {
                Err(CalendarError::InvalidDay)
            }
        } else {
            Ok(())
        }
    }

    fn year_start_date(year: i32) -> (r: CommonDate) {
        CommonDate::new(year, 1, 1)
    }

    fn year_end_date(year: i32) -> (r: CommonDate) {
        CommonDate::new(year, CotsworthMonth::December.to_u8(), 29)
    }
}

impl ToFromOrdinalDate for Cotsworth {
    open spec fn ordinal_error(ord: OrdinalDate) -> Option<CalendarError> {
        if gregorian_ordinal_valid(ord) {
            None
        } else {
            Some(CalendarError::InvalidDayOfYear)
        }
    }

    open spec fn ordinal_of(d: CommonDate) -> OrdinalDate {
        OrdinalDate { year: d.year, day_of_year: cotsworth_day_of_year(d) as u16 }
    }

    open spec fn fixed_of_ordinal(ord: OrdinalDate) -> int {
        gregorian_prior_elapsed(ord.year as int) + ord.day_of_year
    }

    fn valid_ordinal(ord: OrdinalDate) -> (r: Result<(), CalendarError>) {
        Gregorian::valid_ordinal(ord)
    }

    fn ordinal_from_fixed(fixed_date: i64) -> (r: OrdinalDate) {
        Gregorian::ordinal_from_fixed(fixed_date)
    }

    fn to_ordinal(self) -> (r: OrdinalDate)
        ensures
            Self::ordinal_error(r) is None,
    {
        proof {
            use_type_invariant(&self);
        }
        let approx_m = ((self.0.month as u16) - 1) * 28;
        let offset_m = if self.0.month > 6 && Cotsworth::is_leap(self.0.year) {
            approx_m + 1
        } else {
            approx_m
        };
        let doy = offset_m + (self.0.day as u16);
        OrdinalDate { year: self.0.year, day_of_year: doy }
    }

    fn from_ordinal_unchecked(ord: OrdinalDate) -> (r: Self) {
        let leap = Cotsworth::is_leap(ord.year);
        proof {
            lemma_cotsworth_of_ordinal(ord.year as int, ord.day_of_year as int);
        }
        let result = if ord.day_of_year == 366 && leap {
            CommonDate::new(ord.year, 13, 29)
        } else if ord.day_of_year == 365 && !leap {
            CommonDate::new(ord.year, 13, 29)
        } else if ord.day_of_year == COTSWORTH_LEAP_DAY_ORD && leap {
            CommonDate::new(ord.year, 6, 29)
        } else {
            let doy = ord.day_of_year;
            let correction: u16 = if doy < COTSWORTH_LEAP_DAY_ORD || !leap {
                0
            } else {
                1
            };
            let month = ((doy - correction - 1) / 28 + 1) as u8;
            let day = adjusted_remainder((doy - correction) as i64, 28) as u8;
            CommonDate::new(ord.year, month, day)
        };
        Cotsworth(result)
    }
}

impl Epoch for Cotsworth {
    open spec fn epoch_spec() -> int {
        1
    }

    fn epoch() -> (r: i64) {
        Gregorian::epoch()
    }
}

impl ToFixed for Cotsworth {
    open spec fn fixed_spec(self) -> int {
        cotsworth_fixed(self.common_view())
    }

    fn to_fixed(self) -> (r: i64) {
        proof {
            use_type_invariant(&self);
            lemma_cotsworth_doy_bounds(self.0);
        }
        let year = self.year();
        let offset_y = Gregorian::prior_elapsed_days(year);
        let ord = self.to_ordinal();
        offset_y + (ord.day_of_year as i64)
    }
}

impl FromFixed for Cotsworth {
    closed spec fn from_fixed_spec(date: int) -> Self {
        Cotsworth(cotsworth_from_fixed(date))
    }

    fn from_fixed(date: i64) -> (r: Self)
        ensures
            r.common_view() == cotsworth_from_fixed(date as int),
    {
        let ord = Cotsworth::ordinal_from_fixed(date);
        let r = Cotsworth::from_ordinal_unchecked(ord);
        proof {
            use_type_invariant(&r);
            lemma_cotsworth_from_fixed_unique(r.0, date as int);
        }
        r
    }
}

impl HasIntercalaryDays<CotsworthComplementaryDay> for Cotsworth {
    open spec fn complementary_spec(self) -> Option<CotsworthComplementaryDay> {
        if self.common_view().day == 29 && self.common_view().month == 13 {
            Some(CotsworthComplementaryDay::YearDay)
        } else if self.common_view().day == 29 && self.common_view().month == 6 {
            Some(CotsworthComplementaryDay::LeapDay)
        } else {
            None
        }
    }

    open spec fn complementary_count_spec(year: int) -> int {
        if gregorian_leap(year) {
            2
        } else {
            1
        }
    }

    fn complementary(self) -> (r: Option<CotsworthComplementaryDay>) {
        proof {
            use_type_invariant(&self);
        }
        if self.0.day == 29 && self.0.month == CotsworthMonth::December.to_u8() {
            Some(CotsworthComplementaryDay::YearDay)
        } else if self.0.day == 29 && self.0.month == CotsworthMonth::June.to_u8() {
            Some(CotsworthComplementaryDay::LeapDay)
        } else {
            None
        }
    }

    fn complementary_count(p_year: i32) -> (r: u8) {
        if Cotsworth::is_leap(p_year) {
            2
        } else {
            1
        }
    }
}

impl Perennial<Weekday> for Cotsworth {
    open spec fn weekday_spec(self) -> Option<Weekday> {
        if self.common_view().day == 29 {
            None
        } else {
            Some(weekday_of_number((self.common_view().day as int - 1) % 7))
        }
    }

    open spec fn days_per_week_spec() -> int {
        7
    }

    open spec fn weeks_per_month_spec() -> int {
        4
    }

    fn weekday(self) -> (r: Option<Weekday>) {
        proof {
            use_type_invariant(&self);
        }
        if self.0.day == 29 {
            None
        } else {
            Weekday::from_i64(modulus((self.0.day as i64) - 1, 7))
        }
    }

    fn days_per_week() -> (r: u8) {
        7
    }

    fn weeks_per_month() -> (r: u8) {
        4
    }
}

impl Quarter for Cotsworth {
    open spec fn quarter_spec(self) -> int {
        if self.common_view().month == 13 {
            4
        } else {
            (self.common_view().month - 1) / 3 + 1
        }
    }

    fn quarter(self) -> (r: u8) {
        proof {
            use_type_invariant(&self);
        }
        let m = self.to_common_date().month;
        if m == 13 {
            4
        } else {
            ((m - 1) / 3) + 1
        }
    }
}


/// Every day count within the supported range is the day count of a Cotsworth date, and
/// `cotsworth_from_fixed` finds it.
pub proof fn law_cotsworth_fixed_roundtrip(date: int)
    requires
        fixed_in_bounds(date),
    ensures
        cotsworth_error(cotsworth_from_fixed(date)) is None,
        cotsworth_fixed(cotsworth_from_fixed(date)) == date,
{
    law_gregorian_fixed_roundtrip(date);
    let g = gregorian_from_fixed(date);
    lemma_gregorian_fixed_in_year(g);
    let doy = gregorian_day_of_year(g);
    lemma_cotsworth_of_ordinal(g.year as int, doy);
    let c = cotsworth_of_ordinal(g.year as int, doy);
    lemma_cotsworth_from_fixed_unique(c, date);
}

impl CalculatedBounds for Cotsworth {
    open spec fn valid_date(self) -> bool {
        cotsworth_error(self.common_view()) is None
    }

    proof fn lemma_from_fixed_keeps_day(date: int) {
        law_cotsworth_fixed_roundtrip(date);
    }

    proof fn lemma_to_fixed_and_back(x: Self) {
        law_cotsworth_date_roundtrip(x.common_view());
    }
}

/// Every Cotsworth month starts on a Sunday and its twenty-eighth day is a Saturday, in
/// the calendar's own week.
pub proof fn law_cotsworth_month_weekdays(x: Cotsworth)
    ensures
        x.common_view().day == 1 ==> x.weekday_spec() == Some(Weekday::Sunday),
        x.common_view().day == 28 ==> x.weekday_spec() == Some(Weekday::Saturday),
{
}

/// A Cotsworth year starts on the day that the Gregorian year of the same number starts.
pub proof fn law_cotsworth_year_start(year: int)
    requires
        i32::MIN <= year <= i32::MAX,
    ensures
        cotsworth_fixed(CommonDate { year: year as i32, month: 1, day: 1 }) == gregorian_fixed(
            CommonDate { year: year as i32, month: 1, day: 1 },
        ),
{
}


impl GuaranteedMonth<CotsworthMonth> for Cotsworth {
    open spec fn month_number(m: CotsworthMonth) -> int {
        cotsworth_month_number(m)
    }

    fn month(self) -> (r: CotsworthMonth) {
        Cotsworth::month(self)
    }
}

/// A Cotsworth week has seven days and four weeks make the 28 days of a month before any day
/// 29; every month starts on a Sunday and its twenty-eighth day is a Saturday, and each next
/// day of a month up to the twenty-eighth is the next day of the week.
pub proof fn law_cotsworth_weekday_steps(x: Cotsworth, y: Cotsworth)
    ensures
        Cotsworth::days_per_week_spec() == 7,
        Cotsworth::days_per_week_spec() * Cotsworth::weeks_per_month_spec() == 28,
        x.common_view().day != 29 && x.common_view().day == 1 ==> x.weekday_spec() == Some(Weekday::Sunday),
        x.common_view().day != 29 && x.common_view().day == 28 ==> x.weekday_spec() == Some(
            Weekday::Saturday,
        ),
        x.common_view().day != 29 && y.common_view().month == x.common_view().month
            && y.common_view().day == x.common_view().day + 1 && y.common_view().day != 29 ==> (x.weekday_spec() matches Some(
            a,
        ) && y.weekday_spec() matches Some(b) && weekday_number(b) == (weekday_number(a) + 1) % 7),
{
}

/// A date's quarter holds its month: January to March (the first three months) in the
/// first, the next three in the second, then the third, and the last three in the fourth.
/// Sol and the thirteenth month are in the fourth quarter.
pub proof fn law_cotsworth_quarter(x: Cotsworth)
    ensures
        month_in_quarter(x.common_view().month as int, x.quarter_spec()),
        x.common_view().month as int == 13 ==> x.quarter_spec() == 4,
{
}

} // verus!
