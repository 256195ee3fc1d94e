use crate::calendar::arith::lemma_div_in_range;
use crate::calendar::arith::lemma_div_mod_parts;
use crate::calendar::arith::lemma_div_monotone;
use crate::calendar::prelude::HasIntercalaryDays;
use crate::calendar::prelude::Quarter;
use crate::calendar::prelude::CommonWeekOfYear;
use crate::calendar::prelude::ToFromCommonDate;
use crate::calendar::prelude::ToFromOrdinalDate;
use crate::common::date::CommonDate;
use crate::common::date::OrdinalDate;
use crate::common::error::CalendarError;
use crate::common::math::div_floor;
use crate::common::math::mod_floor;
use crate::day_count::fixed::fixed_in_bounds;
use crate::day_count::fixed::Epoch;
use crate::day_count::fixed::FromFixed;
use crate::day_count::fixed::ToFixed;
use crate::day_count::fixed::FIXED_MAX;
use crate::day_count::fixed::CalculatedBounds;
use crate::calendar::prelude::TryMonth;
use crate::calendar::prelude::month_in_quarter;
use crate::calendar::julian::julian_fixed;
use vstd::prelude::*;

verus! {

/// The day count of the first day of the Nabonassar era: the day of Julian Day 1448638.
pub const EGYPTIAN_EPOCH_RD: i64 = -272787;

/// The number used for the month of the five days upon the year.
pub const EGYPTIAN_NON_MONTH: u8 = 13;

/// A month of the Egyptian calendar.
#[derive(Debug, Clone, Copy, PartialEq, Eq, PartialOrd, Ord, Hash, Structural)]
pub enum EgyptianMonth {
    Thoth,
    Phaophi,
    Athyr,
    Choiak,
    Tybi,
    Mechir,
    Phamenoth,
    Pharmuthi,
    Pachon,
    Payni,
    Epiphi,
    Mesori,
}

/// The number of each value of `EgyptianMonth`.
pub open spec fn egyptian_month_number(m: EgyptianMonth) -> int {
    match m {
        EgyptianMonth::Thoth => 1,
        EgyptianMonth::Phaophi => 2,
        EgyptianMonth::Athyr => 3,
        EgyptianMonth::Choiak => 4,
        EgyptianMonth::Tybi => 5,
        EgyptianMonth::Mechir => 6,
        EgyptianMonth::Phamenoth => 7,
        EgyptianMonth::Pharmuthi => 8,
        EgyptianMonth::Pachon => 9,
        EgyptianMonth::Payni => 10,
        EgyptianMonth::Epiphi => 11,
        EgyptianMonth::Mesori => 12,
    }
}

impl EgyptianMonth {
    /// The number of the value.
    pub fn to_u8(self) -> (r: u8)
        ensures
            r == egyptian_month_number(self),
    {
        match self {
            EgyptianMonth::Thoth => 1,
            EgyptianMonth::Phaophi => 2,
            EgyptianMonth::Athyr => 3,
            EgyptianMonth::Choiak => 4,
            EgyptianMonth::Tybi => 5,
            EgyptianMonth::Mechir => 6,
            EgyptianMonth::Phamenoth => 7,
            EgyptianMonth::Pharmuthi => 8,
            EgyptianMonth::Pachon => 9,
            EgyptianMonth::Payni => 10,
            EgyptianMonth::Epiphi => 11,
            EgyptianMonth::Mesori => 12,
        }
    }

    /// The value with the given number, if there is one.
    pub fn from_u8(n: u8) -> (r: Option<EgyptianMonth>)
        ensures
            1 <= n <= 12 ==> (r matches Some(m) && egyptian_month_number(m) == n),
            !(1 <= n <= 12) ==> r is None,
    {
        match n {
            1 => Some(EgyptianMonth::Thoth),
            2 => Some(EgyptianMonth::Phaophi),
            3 => Some(EgyptianMonth::Athyr),
            4 => Some(EgyptianMonth::Choiak),
            5 => Some(EgyptianMonth::Tybi),
            6 => Some(EgyptianMonth::Mechir),
            7 => Some(EgyptianMonth::Phamenoth),
            8 => Some(EgyptianMonth::Pharmuthi),
            9 => Some(EgyptianMonth::Pachon),
            10 => Some(EgyptianMonth::Payni),
            11 => Some(EgyptianMonth::Epiphi),
            12 => Some(EgyptianMonth::Mesori),
            _ => None,
        }
    }
}

/// A day upon the year: one of the five days after the twelfth month.
#[derive(Debug, Clone, Copy, PartialEq, Eq, PartialOrd, Ord, Hash, Structural)]
pub enum EgyptianDaysUponTheYear {
    BirthOfOsiris,
    BirthOfHorus,
    BirthOfSeth,
    BirthOfIsis,
    BirthOfNephthys,
}

/// The number of each value of `EgyptianDaysUponTheYear`.
pub open spec fn egyptian_days_upon_the_year_number(m: EgyptianDaysUponTheYear) -> int {
    match m {
        EgyptianDaysUponTheYear::BirthOfOsiris => 1,
        EgyptianDaysUponTheYear::BirthOfHorus => 2,
        EgyptianDaysUponTheYear::BirthOfSeth => 3,
        EgyptianDaysUponTheYear::BirthOfIsis => 4,
        EgyptianDaysUponTheYear::BirthOfNephthys => 5,
    }
}

impl EgyptianDaysUponTheYear {
    /// The number of the value.
    pub fn to_u8(self) -> (r: u8)
        ensures
            r == egyptian_days_upon_the_year_number(self),
    {
        match self {
            EgyptianDaysUponTheYear::BirthOfOsiris => 1,
            EgyptianDaysUponTheYear::BirthOfHorus => 2,
            EgyptianDaysUponTheYear::BirthOfSeth => 3,
            EgyptianDaysUponTheYear::BirthOfIsis => 4,
            EgyptianDaysUponTheYear::BirthOfNephthys => 5,
        }
    }

    /// The value with the given number, if there is one.
    pub fn from_u8(n: u8) -> (r: Option<EgyptianDaysUponTheYear>)
        ensures
            1 <= n <= 5 ==> (r matches Some(m) && egyptian_days_upon_the_year_number(m) == n),
            !(1 <= n <= 5) ==> r is None,
    {
        match n {
            1 => Some(EgyptianDaysUponTheYear::BirthOfOsiris),
            2 => Some(EgyptianDaysUponTheYear::BirthOfHorus),
            3 => Some(EgyptianDaysUponTheYear::BirthOfSeth),
            4 => Some(EgyptianDaysUponTheYear::BirthOfIsis),
            5 => Some(EgyptianDaysUponTheYear::BirthOfNephthys),
            _ => None,
        }
    }
}

/// Why a year, month and day is not a date of the Egyptian calendar.
pub open spec fn egyptian_error(d: CommonDate) -> Option<CalendarError> {
    if d.month < 1 || d.month > EGYPTIAN_NON_MONTH {
        Some(CalendarError::InvalidMonth)
    } else if d.day < 1 {
        Some(CalendarError::InvalidDay)
    } else if d.month < EGYPTIAN_NON_MONTH && d.day > 30 {
        Some(CalendarError::InvalidDay)
    } else if d.month == EGYPTIAN_NON_MONTH && d.day > 5 {
        Some(CalendarError::InvalidDay)
    } else {
        None
    }
}

/// Days since the start of the era: every year has 365 days and every month 30.
pub open spec fn egyptian_days_since_epoch(d: CommonDate) -> int {
    365 * (d.year - 1) + 30 * (d.month - 1) + d.day - 1
}

/// The day count of an Egyptian date.
pub open spec fn egyptian_fixed(d: CommonDate) -> int {
    EGYPTIAN_EPOCH_RD + egyptian_days_since_epoch(d)
}

/// The Egyptian date that is a given number of days after the start of the era.
pub open spec fn egyptian_date_of_days(days: int) -> CommonDate {
    CommonDate {
        year: (days / 365 + 1) as i32,
        month: ((days % 365) / 30 + 1) as u8,
        day: ((days % 365) % 30 + 1) as u8,
    }
}

/// The Egyptian date of a day count.
pub open spec fn egyptian_from_fixed(date: int) -> CommonDate {
    egyptian_date_of_days(date - EGYPTIAN_EPOCH_RD)
}

/// The range of day counts, relative to an epoch, that the 365-day calendars accept.
pub open spec fn days_in_bounds(days: int) -> bool {
    -(FIXED_MAX + 500000) <= days <= FIXED_MAX + 500000
}

/// Splitting a day count into years, months and days gives a valid date that maps back to it.
pub proof fn law_egyptian_fixed_roundtrip(days: int)
    requires
        days_in_bounds(days),
    ensures
        egyptian_error(egyptian_date_of_days(days)) is None,
        egyptian_days_since_epoch(egyptian_date_of_days(days)) == days,
{
    lemma_div_mod_parts(days, 365);
    lemma_div_mod_parts(days % 365, 30);
    lemma_div_monotone(days, FIXED_MAX + 500000, 365);
    lemma_div_monotone(-(FIXED_MAX + 500000), days, 365);
    lemma_div_in_range(FIXED_MAX + 500000, 365, 47046522);
    lemma_div_in_range(-(FIXED_MAX + 500000), 365, -47046523);
    let r = days % 365;
    if r / 30 > 12 {
        lemma_div_monotone(390, r, 30);
        lemma_div_in_range(390, 30, 13);
    }
}

/// Converting a valid Egyptian date to its day count and back gives the same date.
pub proof fn law_egyptian_date_roundtrip(d: CommonDate)
    requires
        egyptian_error(d) is None,
    ensures
        egyptian_date_of_days(egyptian_days_since_epoch(d)) == d,
{
    let days = egyptian_days_since_epoch(d);
    let r = 30 * (d.month - 1) + d.day - 1;
    lemma_div_in_range(days, 365, d.year - 1);
    lemma_div_in_range(r, 30, d.month - 1);
}

/// Represents a date in the Egyptian calendar of the Nabonassar era.
#[derive(Debug, Clone, Copy, PartialEq, Eq, Structural)]
pub struct Egyptian(CommonDate);

impl Egyptian {
    #[verifier::type_invariant]
    spec fn valid(self) -> bool {
        egyptian_error(self.0) is None
    }

    /// The length of any month of the Egyptian calendar.
    pub fn month_length(_year: i32, _month: EgyptianMonth) -> (r: u8)
        ensures
            r == 30,
    {
        30
    }

    /// The month of the date, unless it is one of the days upon the year.
    pub fn try_month(self) -> (r: Option<EgyptianMonth>)
        ensures
            self.common_view().month < EGYPTIAN_NON_MONTH ==> (r matches Some(m)
                && egyptian_month_number(m) == self.common_view().month),
            self.common_view().month == EGYPTIAN_NON_MONTH ==> r is None,
    {
        proof {
            use_type_invariant(&self);
        }
        EgyptianMonth::from_u8(self.0.month)
    }
}

impl ToFromCommonDate for Egyptian {
    closed spec fn common_view(self) -> CommonDate {
        self.0
    }

    open spec fn ymd_error(d: CommonDate) -> Option<CalendarError> {
        egyptian_error(d)
    }

    open spec fn year_start_spec(year: int) -> CommonDate {
        CommonDate { year: year as i32, month: 1, day: 1 }
    }

    open spec fn year_end_spec(year: int) -> CommonDate {
        CommonDate { year: year as i32, month: EGYPTIAN_NON_MONTH, day: 5 }
    }

    fn to_common_date(self) -> (r: CommonDate) {
        proof {
            use_type_invariant(&self);
        }
        self.0
    }

    fn from_common_date_unchecked(d: CommonDate) -> (r: Self) {
        Egyptian(d)
    }

    fn valid_ymd(date: CommonDate) -> (r: Result<(), CalendarError>) {
        if date.month < 1 || date.month > EGYPTIAN_NON_MONTH {
            Err(CalendarError::InvalidMonth)
        } else if date.day < 1 {
            Err(CalendarError::InvalidDay)
        } else if date.month < EGYPTIAN_NON_MONTH && date.day > 30 {
            Err(CalendarError::InvalidDay)
        } else if date.month == EGYPTIAN_NON_MONTH && date.day > 5 {
            Err(CalendarError::InvalidDay)
        } else {
            Ok(())
        }
    }

    fn year_start_date(year: i32) -> (r: CommonDate) {
        CommonDate::new(year, 1, 1)
    }

    fn year_end_date(year: i32) -> (r: CommonDate) {
        CommonDate::new(year, EGYPTIAN_NON_MONTH, 5)
    }
}

impl ToFromOrdinalDate for Egyptian {
    open spec fn ordinal_error(ord: OrdinalDate) -> Option<CalendarError> {
        if ord.day_of_year < 1 || ord.day_of_year > 365 {
            Some(CalendarError::InvalidDayOfYear)
        } else {
            None
        }
    }

    open spec fn ordinal_of(d: CommonDate) -> OrdinalDate {
        OrdinalDate { year: d.year, day_of_year: (30 * (d.month - 1) + d.day) as u16 }
    }

    open spec fn fixed_of_ordinal(ord: OrdinalDate) -> int {
        EGYPTIAN_EPOCH_RD + 365 * (ord.year - 1) + ord.day_of_year - 1
    }

    fn valid_ordinal(ord: OrdinalDate) -> (r: Result<(), CalendarError>) {
        if ord.day_of_year < 1 || ord.day_of_year > 365 {
            Err(CalendarError::InvalidDayOfYear)
        } else {
            Ok(())
        }
    }

    fn ordinal_from_fixed(fixed_date: i64) -> (r: OrdinalDate) {
        let days = fixed_date - Egyptian::epoch();
        proof {
            law_egyptian_fixed_roundtrip(days as int);
        }
        let year = (div_floor(days, 365) + 1) as i32;
        let doy = (mod_floor(days, 365) + 1) as u16;
        OrdinalDate { year: year, day_of_year: doy }
    }

    fn to_ordinal(self) -> (r: OrdinalDate)
        ensures
            Self::ordinal_error(r) is None,
    {
        proof {
            use_type_invariant(&self);
        }
        let month = self.0.month as i64;
        let day = self.0.day as i64;
        let offset = ((30 * (month - 1)) + day) as u16;
        OrdinalDate { year: self.0.year, day_of_year: offset }
    }

    fn from_ordinal_unchecked(ord: OrdinalDate) -> (r: Self) {
        let month = (ord.day_of_year - 1) / 30 + 1;
        let day = ord.day_of_year - (30 * (month - 1));
        proof {
            lemma_div_mod_parts(ord.day_of_year - 1, 30);
            if month > 13 {
                lemma_div_monotone(390, ord.day_of_year - 1, 30);
                lemma_div_in_range(390, 30, 13);
            }
        }
        Egyptian(CommonDate::new(ord.year, month as u8, day as u8))
    }
}

impl Epoch for Egyptian {
    open spec fn epoch_spec() -> int {
        -272787
    }

    fn epoch() -> (r: i64) {
        assert(Self::epoch_spec() == -272787);
        EGYPTIAN_EPOCH_RD
    }
}

impl ToFixed for Egyptian {
    open spec fn fixed_spec(self) -> int {
        egyptian_fixed(self.common_view())
    }

    fn to_fixed(self) -> (r: i64) {
        proof {
            use_type_invariant(&self);
        }
        let year = self.0.year as i64;
        let month = self.0.month as i64;
        let day = self.0.day as i64;
        let offset = (365 * (year - 1)) + (30 * (month - 1)) + day - 1;
        Egyptian::epoch() + offset
    }
}

impl FromFixed for Egyptian {
    closed spec fn from_fixed_spec(date: int) -> Self {
        Egyptian(egyptian_from_fixed(date))
    }

    fn from_fixed(date: i64) -> (r: Self)
        ensures
            r.common_view() == egyptian_from_fixed(date as int),
    {
        let days = date - Egyptian::epoch();
        proof {
            law_egyptian_fixed_roundtrip(days as int);
            lemma_div_mod_parts(days as int, 365);
        }
        let year = div_floor(days, 365) + 1;
        let month = div_floor(mod_floor(days, 365), 30) + 1;
        let day = days - (365 * (year - 1)) - (30 * (month - 1)) + 1;
        Egyptian(CommonDate { year: year as i32, month: month as u8, day: day as u8 })
    }
}

impl HasIntercalaryDays<EgyptianDaysUponTheYear> for Egyptian {
    open spec fn complementary_spec(self) -> Option<EgyptianDaysUponTheYear> {
        if self.common_view().month == EGYPTIAN_NON_MONTH {
            Some(egyptian_day_of_number(self.common_view().day as int))
        } else {
            None
        }
    }

    open spec fn complementary_count_spec(year: int) -> int {
        5
    }

    fn complementary(self) -> (r: Option<EgyptianDaysUponTheYear>) {
        proof {
            use_type_invariant(&self);
        }
        if self.0.month == EGYPTIAN_NON_MONTH {
            EgyptianDaysUponTheYear::from_u8(self.0.day)
        } else {
            None
        }
    }

    fn complementary_count(_year: i32) -> (r: u8) {
        5
    }
}

/// The day upon the year with a given number, from 1 to 5.
pub open spec fn egyptian_day_of_number(n: int) -> EgyptianDaysUponTheYear {
    if n == 1 {
        EgyptianDaysUponTheYear::BirthOfOsiris
    } else if n == 2 {
        EgyptianDaysUponTheYear::BirthOfHorus
    } else if n == 3 {
        EgyptianDaysUponTheYear::BirthOfSeth
    } else if n == 4 {
        EgyptianDaysUponTheYear::BirthOfIsis
    } else {
        EgyptianDaysUponTheYear::BirthOfNephthys
    }
}

impl Quarter for Egyptian {
    open spec fn quarter_spec(self) -> int {
        if self.common_view().month == EGYPTIAN_NON_MONTH {
            4
        } else {
            (self.common_view().month - 1) / 3 + 1
        }
    }

    fn quarter(self) -> (r: u8) {
        proof {
            use_type_invariant(&self);
        }
        let m = self.to_common_date().month;
        if m == EGYPTIAN_NON_MONTH {
            4
        } else {
            ((m - 1) / 3) + 1
        }
    }
}

impl CommonWeekOfYear for Egyptian {
    open spec fn fixed_of_date(d: CommonDate) -> int {
        egyptian_fixed(d)
    }

    proof fn lemma_fixed_of_date(x: Self) {
    }
}


impl CalculatedBounds for Egyptian {
    open spec fn valid_date(self) -> bool {
        egyptian_error(self.common_view()) is None
    }

    proof fn lemma_from_fixed_keeps_day(date: int) {
        law_egyptian_fixed_roundtrip(date - EGYPTIAN_EPOCH_RD);
    }

    proof fn lemma_to_fixed_and_back(x: Self) {
        law_egyptian_date_roundtrip(x.common_view());
    }
}


impl TryMonth<EgyptianMonth> for Egyptian {
    open spec fn month_number(m: EgyptianMonth) -> int {
        egyptian_month_number(m)
    }

    open spec fn in_month(self) -> bool {
        self.common_view().month < EGYPTIAN_NON_MONTH
    }

    fn try_month(self) -> (r: Option<EgyptianMonth>) {
        proof {
            use_type_invariant(&self);
        }
        Egyptian::try_month(self)
    }
}

/// A date's quarter holds its month: January to March (the first three months) in the
/// first, the next three in the second, then the third, and the last three in the fourth.
/// The five days after the twelfth month are in the fourth quarter.
pub proof fn law_egyptian_quarter(x: Egyptian)
    ensures
        month_in_quarter(x.common_view().month as int, x.quarter_spec()),
        x.common_view().month as int == 13 ==> x.quarter_spec() == 4,
{
}

/// The first day of the Egyptian calendar, the era of Nabonassar, is Julian Day 1448638:
/// February 26 of 747 BC in the Julian calendar.
pub proof fn law_egyptian_epoch()
    ensures
        egyptian_fixed(CommonDate { year: 1, month: 1, day: 1 }) == 1448638 - 1721425,
        egyptian_fixed(CommonDate { year: 1, month: 1, day: 1 }) == julian_fixed(CommonDate { year: -747i32, month: 2, day: 26 }),
{
}

} // verus!
