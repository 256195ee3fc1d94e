use crate::calendar::arith::lemma_div_in_range;
use crate::calendar::arith::lemma_div_mod_parts;
use crate::calendar::arith::lemma_div_monotone;
use crate::calendar::gregorian::gregorian_fixed;
use crate::calendar::gregorian::gregorian_from_fixed;
use crate::calendar::gregorian::gregorian_leap;
use crate::calendar::gregorian::gregorian_ordinal_valid;
use crate::calendar::gregorian::gregorian_prior_elapsed;
use crate::calendar::gregorian::law_gregorian_fixed_roundtrip;
use crate::calendar::gregorian::lemma_gregorian_fixed_in_year;
use crate::calendar::gregorian::lemma_gregorian_prior_monotone;
use crate::calendar::gregorian::prior_elapsed_days_wide;
use crate::calendar::gregorian::solar_year_length;
use crate::calendar::gregorian::Gregorian;
use crate::calendar::prelude::HasIntercalaryDays;
use crate::calendar::prelude::HasLeapYears;
use crate::calendar::prelude::Perennial;
use crate::calendar::prelude::Quarter;
use crate::calendar::prelude::ToFromCommonDate;
use crate::calendar::prelude::ToFromOrdinalDate;
use crate::common::date::CommonDate;
use crate::common::date::OrdinalDate;
use crate::common::error::CalendarError;
use crate::common::math::adjusted_remainder;
use crate::common::math::modulus;
use crate::day_count::fixed::Epoch;
use crate::day_count::fixed::FromFixed;
use crate::day_count::fixed::ToFixed;
use crate::day_cycle::week::weekday_of_number;
use crate::day_cycle::week::weekday_number;
use crate::day_cycle::week::Weekday;
use crate::day_count::fixed::CalculatedBounds;
use crate::day_count::fixed::fixed_in_bounds;
use crate::calendar::gregorian::gregorian_day_of_year;
use crate::calendar::prelude::TryMonth;
use crate::calendar::prelude::month_in_quarter;
use vstd::prelude::*;

verus! {

/// Positivist years are Gregorian years minus this offset: year 1 is 1789.
pub const POSITIVIST_YEAR_OFFSET: i32 = 1788;

/// The number used for the month of the complementary days.
pub const POSITIVIST_NON_MONTH: u8 = 14;

/// A month of the Positivist calendar.
#[derive(Debug, Clone, Copy, PartialEq, Eq, PartialOrd, Ord, Hash, Structural)]
pub enum PositivistMonth {
    Moses,
    Homer,
    Aristotle,
    Archimedes,
    Caesar,
    SaintPaul,
    Charlemagne,
    Dante,
    Gutenburg,
    Shakespeare,
    Descartes,
    Frederick,
    Bichat,
}

/// The number of each value of `PositivistMonth`.
pub open spec fn positivist_month_number(m: PositivistMonth) -> int {
    match m {
        PositivistMonth::Moses => 1,
        PositivistMonth::Homer => 2,
        PositivistMonth::Aristotle => 3,
        PositivistMonth::Archimedes => 4,
        PositivistMonth::Caesar => 5,
        PositivistMonth::SaintPaul => 6,
        PositivistMonth::Charlemagne => 7,
        PositivistMonth::Dante => 8,
        PositivistMonth::Gutenburg => 9,
        PositivistMonth::Shakespeare => 10,
        PositivistMonth::Descartes => 11,
        PositivistMonth::Frederick => 12,
        PositivistMonth::Bichat => 13,
    }
}

impl PositivistMonth {
    /// The number of the value.
    pub fn to_u8(self) -> (r: u8)
        ensures
            r == positivist_month_number(self),
    {
        match self {
            PositivistMonth::Moses => 1,
            PositivistMonth::Homer => 2,
            PositivistMonth::Aristotle => 3,
            PositivistMonth::Archimedes => 4,
            PositivistMonth::Caesar => 5,
            PositivistMonth::SaintPaul => 6,
            PositivistMonth::Charlemagne => 7,
            PositivistMonth::Dante => 8,
            PositivistMonth::Gutenburg => 9,
            PositivistMonth::Shakespeare => 10,
            PositivistMonth::Descartes => 11,
            PositivistMonth::Frederick => 12,
            PositivistMonth::Bichat => 13,
        }
    }

    /// The value with the given number, if there is one.
    pub fn from_u8(n: u8) -> (r: Option<PositivistMonth>)
        ensures
            1 <= n <= 13 ==> (r matches Some(m) && positivist_month_number(m) == n),
            !(1 <= n <= 13) ==> r is None,
    {
        match n {
            1 => Some(PositivistMonth::Moses),
            2 => Some(PositivistMonth::Homer),
            3 => Some(PositivistMonth::Aristotle),
            4 => Some(PositivistMonth::Archimedes),
            5 => Some(PositivistMonth::Caesar),
            6 => Some(PositivistMonth::SaintPaul),
            7 => Some(PositivistMonth::Charlemagne),
            8 => Some(PositivistMonth::Dante),
            9 => Some(PositivistMonth::Gutenburg),
            10 => Some(PositivistMonth::Shakespeare),
            11 => Some(PositivistMonth::Descartes),
            12 => Some(PositivistMonth::Frederick),
            13 => Some(PositivistMonth::Bichat),
            _ => None,
        }
    }
}

/// A complementary day of the Positivist calendar.
#[derive(Debug, Clone, Copy, PartialEq, Eq, PartialOrd, Ord, Hash, Structural)]
pub enum PositivistComplementaryDay {
    FestivalOfTheDead,
    FestivalOfHolyWomen,
}

/// The number of each value of `PositivistComplementaryDay`.
pub open spec fn positivist_complementary_day_number(m: PositivistComplementaryDay) -> int {
    match m {
        PositivistComplementaryDay::FestivalOfTheDead => 1,
        PositivistComplementaryDay::FestivalOfHolyWomen => 2,
    }
}

impl PositivistComplementaryDay {
    /// The number of the value.
    pub fn to_u8(self) -> (r: u8)
        ensures
            r == positivist_complementary_day_number(self),
    {
        match self {
            PositivistComplementaryDay::FestivalOfTheDead => 1,
            PositivistComplementaryDay::FestivalOfHolyWomen => 2,
        }
    }

    /// The value with the given number, if there is one.
    pub fn from_u8(n: u8) -> (r: Option<PositivistComplementaryDay>)
        ensures
            1 <= n <= 2 ==> (r matches Some(m) && positivist_complementary_day_number(m) == n),
            !(1 <= n <= 2) ==> r is None,
    {
        match n {
            1 => Some(PositivistComplementaryDay::FestivalOfTheDead),
            2 => Some(PositivistComplementaryDay::FestivalOfHolyWomen),
            _ => None,
        }
    }
}

pub open spec fn positivist_leap(y: int) -> bool {
    gregorian_leap(y + POSITIVIST_YEAR_OFFSET)
}

pub open spec fn positivist_complementary_count(y: int) -> int {
    if positivist_leap(y) {
        2
    } else {
        1
    }
}

/// Why a year, month and day is not a Positivist date.
pub open spec fn positivist_error(d: CommonDate) -> Option<CalendarError> {
    if d.month < 1 || d.month > POSITIVIST_NON_MONTH {
        Some(CalendarError::InvalidMonth)
    } else if d.day < 1 {
        Some(CalendarError::InvalidDay)
    } else if d.month < POSITIVIST_NON_MONTH && d.day > 28 {
        Some(CalendarError::InvalidDay)
    } else if d.month == POSITIVIST_NON_MONTH && d.day > positivist_complementary_count(
        d.year as int,
    ) {
        Some(CalendarError::InvalidDay)
    } else {
        None
    }
}

/// Thirteen months of 28 days, then the complementary days.
pub open spec fn positivist_day_of_year(d: CommonDate) -> int {
    28 * (d.month - 1) + d.day
}

/// The day count of a Positivist date.
pub open spec fn positivist_fixed(d: CommonDate) -> int {
    gregorian_prior_elapsed(d.year + POSITIVIST_YEAR_OFFSET) + positivist_day_of_year(d)
}

/// The Positivist date of a year and day of year.
pub open spec fn positivist_of_ordinal(year: int, doy: int) -> CommonDate {
    CommonDate {
        year: year as i32,
        month: ((doy - 1) / 28 + 1) as u8,
        day: (if doy % 28 == 0 {
            28
        } else {
            doy % 28
        }) as u8,
    }
}

/// The Positivist date of a day count.
pub open spec fn positivist_from_fixed(date: int) -> CommonDate {
    choose|c: CommonDate| positivist_error(c) is None && positivist_fixed(c) == date
}

/// A day of year of a Positivist year gives a valid date with that day of year.
proof fn lemma_positivist_of_ordinal(year: int, doy: int)
    requires
        1 <= doy <= solar_year_length(positivist_leap(year)),
        i32::MIN <= year <= i32::MAX,
    ensures
        positivist_error(positivist_of_ordinal(year, doy)) is None,
        positivist_day_of_year(positivist_of_ordinal(year, doy)) == doy,
{
    lemma_div_mod_parts(doy - 1, 28);
    lemma_div_mod_parts(doy, 28);
    if (doy - 1) / 28 > 13 {
        lemma_div_monotone(392, doy - 1, 28);
        lemma_div_in_range(392, 28, 14);
    }
    if doy % 28 == 0 {
        lemma_div_in_range(doy - 1, 28, doy / 28 - 1);
    } else {
        lemma_div_in_range(doy - 1, 28, doy / 28);
    }
}

/// Different valid Positivist dates have different day counts.
pub proof fn lemma_positivist_fixed_injective(d1: CommonDate, d2: CommonDate)
    requires
        positivist_error(d1) is None,
        positivist_error(d2) is None,
        positivist_fixed(d1) == positivist_fixed(d2),
    ensures
        d1 == d2,
{
    let y1 = d1.year + POSITIVIST_YEAR_OFFSET;
    let y2 = d2.year + POSITIVIST_YEAR_OFFSET;
    if y1 < y2 {
        lemma_gregorian_prior_monotone(y1, y2);
    } else if y2 < y1 {
        lemma_gregorian_prior_monotone(y2, y1);
    }
}

/// The date that `from_fixed` finds is the only one with that day count.
pub proof fn lemma_positivist_from_fixed_unique(c: CommonDate, date: int)
    requires
        positivist_error(c) is None,
        positivist_fixed(c) == date,
    ensures
        positivist_from_fixed(date) == c,
{
    let w = positivist_from_fixed(date);
    assert(positivist_error(w) is None && positivist_fixed(w) == date);
    lemma_positivist_fixed_injective(w, c);
}

/// Converting a valid Positivist date to its day count and back gives the same date.
pub proof fn law_positivist_date_roundtrip(c: CommonDate)
    requires
        positivist_error(c) is None,
    ensures
        positivist_from_fixed(positivist_fixed(c)) == c,
{
    lemma_positivist_from_fixed_unique(c, positivist_fixed(c));
}

/// Represents a date in the Positivist calendar.
#[derive(Debug, Clone, Copy, PartialEq, Eq, Structural)]
pub struct Positivist(CommonDate);

impl Positivist {
    #[verifier::type_invariant]
    spec fn valid(self) -> bool {
        positivist_error(self.0) is None
    }

    /// The month of the date, unless it is a complementary day.
    pub fn try_month(self) -> (r: Option<PositivistMonth>)
        ensures
            self.common_view().month < POSITIVIST_NON_MONTH ==> (r matches Some(m)
                && positivist_month_number(m) == self.common_view().month),
            self.common_view().month == POSITIVIST_NON_MONTH ==> r is None,
    {
        proof {
            use_type_invariant(&self);
        }
        PositivistMonth::from_u8(self.0.month)
    }
}

/// The number of complementary days of a year: two in leap years, one otherwise.
fn count_complementary(p_year: i32) -> (r: u8)
    ensures
        r == positivist_complementary_count(p_year as int),
{
    if Positivist::is_leap(p_year) {
        2
    } else {
        1
    }
}

impl HasLeapYears for Positivist {
    open spec fn leap_spec(year: int) -> bool {
        positivist_leap(year)
    }

    fn is_leap(p_year: i32) -> (r: bool) {
        let r = crate::calendar::gregorian::is_leap_wide(
            (POSITIVIST_YEAR_OFFSET as i64) + (p_year as i64),
        );
        assert(Self::leap_spec(p_year as int) == positivist_leap(p_year as int));
        r
    }
}

impl ToFromCommonDate for Positivist {
    closed spec fn common_view(self) -> CommonDate {
        self.0
    }

    open spec fn ymd_error(d: CommonDate) -> Option<CalendarError> {
        positivist_error(d)
    }

    open spec fn year_start_spec(year: int) -> CommonDate {
        CommonDate { year: year as i32, month: 1, day: 1 }
    }

    open spec fn year_end_spec(year: int) -> CommonDate {
        CommonDate {
            year: year as i32,
            month: POSITIVIST_NON_MONTH,
            day: positivist_complementary_count(year) as u8,
        }
    }

    fn to_common_date(self) -> (r: CommonDate) {
        proof {
            use_type_invariant(&self);
        }
        self.0
    }

    fn from_common_date_unchecked(d: CommonDate) -> (r: Self) {
        Positivist(d)
    }

    fn valid_ymd(date: CommonDate) -> (r: Result<(), CalendarError>) {
        if date.month < 1 || date.month > POSITIVIST_NON_MONTH {
            Err(CalendarError::InvalidMonth)
        } else if date.day < 1 {
            Err(CalendarError::InvalidDay)
        } else if date.month < POSITIVIST_NON_MONTH && date.day > 28 {
            Err(CalendarError::InvalidDay)
        } else if date.month == POSITIVIST_NON_MONTH && date.day > count_complementary(date.year) {
            Err(CalendarError::InvalidDay)
        } else {
            Ok(())
        }
    }

    fn year_start_date(year: i32) -> (r: CommonDate) {
        CommonDate::new(year, 1, 1)
    }

    fn year_end_date(year: i32) -> (r: CommonDate) {
        CommonDate::new(year, POSITIVIST_NON_MONTH, count_complementary(year))
    }
}

impl ToFromOrdinalDate for Positivist {
    open spec fn ordinal_error(ord: OrdinalDate) -> Option<CalendarError> {
        if 1 <= ord.day_of_year <= solar_year_length(positivist_leap(ord.year as int)) {
            None
        } else {
            Some(CalendarError::InvalidDayOfYear)
        }
    }

    open spec fn ordinal_of(d: CommonDate) -> OrdinalDate {
        OrdinalDate { year: d.year, day_of_year: positivist_day_of_year(d) as u16 }
    }

    open spec fn fixed_of_ordinal(ord: OrdinalDate) -> int {
        gregorian_prior_elapsed(ord.year + POSITIVIST_YEAR_OFFSET) + ord.day_of_year
    }

    fn valid_ordinal(ord: OrdinalDate) -> (r: Result<(), CalendarError>) {
        let correction: u16 = if Positivist::is_leap(ord.year) {
            1
        } else {
            0
        };
        if ord.day_of_year > 0 && ord.day_of_year <= (365 + correction) {
            Ok(())
        } else {
            Err(CalendarError::InvalidDayOfYear)
        }
    }

    fn ordinal_from_fixed(fixed_date: i64) -> (r: OrdinalDate) {
        let ord_g = Gregorian::ordinal_from_fixed(fixed_date);
        proof {
            lemma_positivist_gregorian_year(fixed_date as int, ord_g.year as int);
        }
        OrdinalDate { year: ord_g.year - POSITIVIST_YEAR_OFFSET, day_of_year: ord_g.day_of_year }
    }

    fn to_ordinal(self) -> (r: OrdinalDate)
        ensures
            Self::ordinal_error(r) is None,
    {
        proof {
            use_type_invariant(&self);
        }
        let offset_m = ((self.0.month as u16) - 1) * 28;
        let doy = offset_m + (self.0.day as u16);
        OrdinalDate { year: self.0.year, day_of_year: doy }
    }

    fn from_ordinal_unchecked(ord: OrdinalDate) -> (r: Self) {
        let year = ord.year;
        proof {
            lemma_positivist_of_ordinal(year as int, ord.day_of_year as int);
        }
        let month = ((ord.day_of_year - 1) / 28 + 1) as u8;
        let day = adjusted_remainder(ord.day_of_year as i64, 28) as u8;
        Positivist(CommonDate::new(year, month, day))
    }
}

/// The Gregorian year of a day count within the supported range is within `i32` years
/// of the Positivist offset.
proof fn lemma_positivist_gregorian_year(date: int, y: int)
    requires
        crate::day_count::fixed::fixed_in_bounds(date),
        1 <= date - gregorian_prior_elapsed(y) <= solar_year_length(gregorian_leap(y)),
    ensures
        -50000000 <= y <= 50000000,
{
    law_gregorian_fixed_roundtrip(date);
    let c = gregorian_from_fixed(date);
    lemma_gregorian_fixed_in_year(c);
    if y > c.year {
        lemma_gregorian_prior_monotone(c.year as int, y);
    } else if y < c.year {
        lemma_gregorian_prior_monotone(y, c.year as int);
    }
}

impl Epoch for Positivist {
    open spec fn epoch_spec() -> int {
        gregorian_prior_elapsed(POSITIVIST_YEAR_OFFSET as int) + 1
    }

    fn epoch() -> (r: i64) {
        let g = Gregorian::try_year_start(POSITIVIST_YEAR_OFFSET);
        g.unwrap().to_fixed()
    }
}

impl ToFixed for Positivist {
    open spec fn fixed_spec(self) -> int {
        positivist_fixed(self.common_view())
    }

    fn to_fixed(self) -> (r: i64) {
        proof {
            use_type_invariant(&self);
        }
        let y = (self.0.year as i64) + (POSITIVIST_YEAR_OFFSET as i64);
        let offset_y = prior_elapsed_days_wide(y);
        let doy = self.to_ordinal().day_of_year as i64;
        offset_y + doy
    }
}

impl FromFixed for Positivist {
    closed spec fn from_fixed_spec(date: int) -> Self {
        Positivist(positivist_from_fixed(date))
    }

    fn from_fixed(date: i64) -> (r: Self)
        ensures
            r.common_view() == positivist_from_fixed(date as int),
    {
        let ord = Positivist::ordinal_from_fixed(date);
        let r = Positivist::from_ordinal_unchecked(ord);
        proof {
            use_type_invariant(&r);
            lemma_positivist_from_fixed_unique(r.0, date as int);
        }
        r
    }
}

impl HasIntercalaryDays<PositivistComplementaryDay> for Positivist {
    open spec fn complementary_spec(self) -> Option<PositivistComplementaryDay> {
        if self.common_view().month == POSITIVIST_NON_MONTH {
            Some(
                if self.common_view().day == 1 {
                    PositivistComplementaryDay::FestivalOfTheDead
                } else {
                    PositivistComplementaryDay::FestivalOfHolyWomen
                },
            )
        } else {
            None
        }
    }

    open spec fn complementary_count_spec(year: int) -> int {
        positivist_complementary_count(year)
    }

    fn complementary(self) -> (r: Option<PositivistComplementaryDay>) {
        proof {
            use_type_invariant(&self);
        }
        if self.0.month == POSITIVIST_NON_MONTH {
            PositivistComplementaryDay::from_u8(self.0.day)
        } else {
            None
        }
    }

    fn complementary_count(p_year: i32) -> (r: u8) {
        count_complementary(p_year)
    }
}

impl Perennial<Weekday> for Positivist {
    open spec fn weekday_spec(self) -> Option<Weekday> {
        if self.common_view().month == POSITIVIST_NON_MONTH {
            None
        } else {
            Some(weekday_of_number(self.common_view().day as int % 7))
        }
    }

    open spec fn days_per_week_spec() -> int {
        7
    }

    open spec fn weeks_per_month_spec() -> int {
        4
    }

    fn weekday(self) -> (r: Option<Weekday>) {
        proof {
            use_type_invariant(&self);
        }
        if self.0.month == POSITIVIST_NON_MONTH {
            None
        } else {
            Weekday::from_i64(modulus(self.0.day as i64, 7))
        }
    }

    fn days_per_week() -> (r: u8) {
        7
    }

    fn weeks_per_month() -> (r: u8) {
        4
    }
}

impl Quarter for Positivist {
    open spec fn quarter_spec(self) -> int {
        if self.common_view().month >= 13 {
            4
        } else {
            (self.common_view().month - 1) / 3 + 1
        }
    }

    fn quarter(self) -> (r: u8) {
        proof {
            use_type_invariant(&self);
        }
        match self.try_month() {
            Some(PositivistMonth::Bichat) | None => 4,
            Some(m) => ((m.to_u8() - 1) / 3) + 1,
        }
    }
}


/// Every day count within the supported range is the day count of a Positivist date, and
/// `positivist_from_fixed` finds it.
pub proof fn law_positivist_fixed_roundtrip(date: int)
    requires
        fixed_in_bounds(date),
    ensures
        positivist_error(positivist_from_fixed(date)) is None,
        positivist_fixed(positivist_from_fixed(date)) == date,
{
    law_gregorian_fixed_roundtrip(date);
    let g = gregorian_from_fixed(date);
    lemma_gregorian_fixed_in_year(g);
    let year = g.year - POSITIVIST_YEAR_OFFSET;
    let doy = gregorian_day_of_year(g);
    lemma_positivist_of_ordinal(year, doy);
    let c = positivist_of_ordinal(year, doy);
    lemma_positivist_from_fixed_unique(c, date);
}

impl CalculatedBounds for Positivist {
    open spec fn valid_date(self) -> bool {
        positivist_error(self.common_view()) is None
    }

    proof fn lemma_from_fixed_keeps_day(date: int) {
        law_positivist_fixed_roundtrip(date);
    }

    proof fn lemma_to_fixed_and_back(x: Self) {
        law_positivist_date_roundtrip(x.common_view());
    }
}


impl TryMonth<PositivistMonth> for Positivist {
    open spec fn month_number(m: PositivistMonth) -> int {
        positivist_month_number(m)
    }

    open spec fn in_month(self) -> bool {
        self.common_view().month < POSITIVIST_NON_MONTH
    }

    fn try_month(self) -> (r: Option<PositivistMonth>) {
        proof {
            use_type_invariant(&self);
        }
        Positivist::try_month(self)
    }
}

/// A Positivist week has seven days and a month four weeks, 28 days; every such month starts
/// on a Monday and ends on a Sunday, and each next day of a month is the next day of the week.
pub proof fn law_positivist_month_weekdays(x: Positivist, y: Positivist)
    ensures
        Positivist::days_per_week_spec() == 7,
        Positivist::days_per_week_spec() * Positivist::weeks_per_month_spec() == 28,
        x.common_view().month != POSITIVIST_NON_MONTH && x.common_view().day == 1 ==> x.weekday_spec() == Some(Weekday::Monday),
        x.common_view().month != POSITIVIST_NON_MONTH && x.common_view().day == 28 ==> x.weekday_spec() == Some(
            Weekday::Sunday,
        ),
        x.common_view().month != POSITIVIST_NON_MONTH && y.common_view().month == x.common_view().month
            && y.common_view().day == x.common_view().day + 1 && y.common_view().month != POSITIVIST_NON_MONTH ==> (x.weekday_spec() matches Some(
            a,
        ) && y.weekday_spec() matches Some(b) && weekday_number(b) == (weekday_number(a) + 1) % 7),
{
}

/// A date's quarter holds its month: January to March (the first three months) in the
/// first, the next three in the second, then the third, and the last three in the fourth.
/// Bichat, the thirteenth month, and the complementary days are in the fourth quarter.
pub proof fn law_positivist_quarter(x: Positivist)
    ensures
        month_in_quarter(x.common_view().month as int, x.quarter_spec()),
        x.common_view().month as int >= 13 ==> x.quarter_spec() == 4,
{
}

/// The first day of the Positivist calendar, 1 Moses of year 1, is January 1, 1789 in the
/// Gregorian calendar.
pub proof fn law_positivist_epoch()
    ensures
        positivist_fixed(CommonDate { year: 1, month: 1, day: 1 }) == gregorian_fixed(CommonDate { year: 1789, month: 1, day: 1 }),
{
}

} // verus!
