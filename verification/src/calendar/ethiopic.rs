use crate::calendar::coptic::coptic_error;
use crate::calendar::coptic::coptic_leap;
use crate::calendar::coptic::coptic_month_length;
use crate::calendar::coptic::coptic_scheme_fixed;
use crate::calendar::coptic::coptic_scheme_from_fixed;
use crate::calendar::coptic::coptic_scheme_month_day;
use crate::calendar::coptic::coptic_scheme_ordinal;
use crate::calendar::coptic::lemma_coptic_from_fixed_unique;
use crate::calendar::coptic::Coptic;
use crate::calendar::julian::Julian;
use crate::calendar::prelude::HasLeapYears;
use crate::calendar::prelude::Quarter;
use crate::calendar::prelude::CommonWeekOfYear;
use crate::calendar::prelude::ToFromCommonDate;
use crate::common::date::CommonDate;
use crate::common::error::CalendarError;
use crate::common::math::modulus;
use crate::day_count::fixed::Epoch;
use crate::day_count::fixed::FromFixed;
use crate::day_count::fixed::ToFixed;
use crate::day_count::fixed::CalculatedBounds;
use crate::calendar::coptic::law_coptic_fixed_roundtrip;
use crate::calendar::coptic::law_coptic_date_roundtrip;
use crate::calendar::prelude::GuaranteedMonth;
use crate::calendar::prelude::month_in_quarter;
use crate::calendar::julian::julian_fixed;
use vstd::prelude::*;

verus! {

/// The day count of the first day of the Ethiopic era.
pub const ETHIOPIC_EPOCH_RD: i64 = 2796;

/// A month of the Ethiopic calendar; the thirteenth holds the epagomenal days.
#[derive(Debug, Clone, Copy, PartialEq, Eq, PartialOrd, Ord, Hash, Structural)]
pub enum EthiopicMonth {
    Maskaram,
    Teqemt,
    Hedar,
    Takhsas,
    Ter,
    Yakatit,
    Magabit,
    Miyazya,
    Genbot,
    Sane,
    Hamle,
    Nahase,
    Paguemen,
}

/// The number of each value of `EthiopicMonth`.
pub open spec fn ethiopic_month_number(m: EthiopicMonth) -> int {
    match m {
        EthiopicMonth::Maskaram => 1,
        EthiopicMonth::Teqemt => 2,
        EthiopicMonth::Hedar => 3,
        EthiopicMonth::Takhsas => 4,
        EthiopicMonth::Ter => 5,
        EthiopicMonth::Yakatit => 6,
        EthiopicMonth::Magabit => 7,
        EthiopicMonth::Miyazya => 8,
        EthiopicMonth::Genbot => 9,
        EthiopicMonth::Sane => 10,
        EthiopicMonth::Hamle => 11,
        EthiopicMonth::Nahase => 12,
        EthiopicMonth::Paguemen => 13,
    }
}

impl EthiopicMonth {
    /// The number of the value.
    pub fn to_u8(self) -> (r: u8)
        ensures
            r == ethiopic_month_number(self),
    {
        match self {
            EthiopicMonth::Maskaram => 1,
            EthiopicMonth::Teqemt => 2,
            EthiopicMonth::Hedar => 3,
            EthiopicMonth::Takhsas => 4,
            EthiopicMonth::Ter => 5,
            EthiopicMonth::Yakatit => 6,
            EthiopicMonth::Magabit => 7,
            EthiopicMonth::Miyazya => 8,
            EthiopicMonth::Genbot => 9,
            EthiopicMonth::Sane => 10,
            EthiopicMonth::Hamle => 11,
            EthiopicMonth::Nahase => 12,
            EthiopicMonth::Paguemen => 13,
        }
    }

    /// The value with the given number, if there is one.
    pub fn from_u8(n: u8) -> (r: Option<EthiopicMonth>)
        ensures
            1 <= n <= 13 ==> (r matches Some(m) && ethiopic_month_number(m) == n),
            !(1 <= n <= 13) ==> r is None,
    {
        match n {
            1 => Some(EthiopicMonth::Maskaram),
            2 => Some(EthiopicMonth::Teqemt),
            3 => Some(EthiopicMonth::Hedar),
            4 => Some(EthiopicMonth::Takhsas),
            5 => Some(EthiopicMonth::Ter),
            6 => Some(EthiopicMonth::Yakatit),
            7 => Some(EthiopicMonth::Magabit),
            8 => Some(EthiopicMonth::Miyazya),
            9 => Some(EthiopicMonth::Genbot),
            10 => Some(EthiopicMonth::Sane),
            11 => Some(EthiopicMonth::Hamle),
            12 => Some(EthiopicMonth::Nahase),
            13 => Some(EthiopicMonth::Paguemen),
            _ => None,
        }
    }
}

impl EthiopicMonth {
    /// The length of the month in a year that is or is not a leap year.
    pub fn length(self, leap: bool) -> (r: u8)
        ensures
            r == coptic_month_length(leap, ethiopic_month_number(self)),
    {
        match self {
            EthiopicMonth::Paguemen => {
                if leap {
                    6
                } else {
                    5
                }
            },
            _ => 30,
        }
    }
}

/// Represents a date in the Ethiopic calendar.
#[derive(Debug, Clone, Copy, PartialEq, Eq, Structural)]
pub struct Ethiopic(CommonDate);

impl Ethiopic {
    #[verifier::type_invariant]
    spec fn valid(self) -> bool {
        coptic_error(self.0) is None
    }

    /// The month of the date.
    pub fn month(self) -> (r: EthiopicMonth)
        ensures
            ethiopic_month_number(r) == self.common_view().month,
    {
        proof {
            use_type_invariant(&self);
        }
        EthiopicMonth::from_u8(self.0.month).unwrap()
    }

    /// Attempts to build an Ethiopic date.
    pub fn try_new(year: i32, month: EthiopicMonth, day: u8) -> (r: Result<
        Ethiopic,
        CalendarError,
    >)
        ensures
            ({
                let d = CommonDate { year, month: ethiopic_month_number(month) as u8, day };
                &&& coptic_error(d) is None ==> (r matches Ok(x) && x.common_view() == d)
                &&& coptic_error(d) matches Some(e) ==> r == Err::<Ethiopic, CalendarError>(e)
            }),
    {
        Ethiopic::try_from_common_date(CommonDate::new(year, month.to_u8(), day))
    }
}

impl HasLeapYears for Ethiopic {
    open spec fn leap_spec(year: int) -> bool {
        coptic_leap(year)
    }

    fn is_leap(year: i32) -> (r: bool) {
        assert(Self::leap_spec(year as int) == coptic_leap(year as int));
        modulus(year as i64, 4) == 3
    }
}

impl ToFromCommonDate for Ethiopic {
    closed spec fn common_view(self) -> CommonDate {
        self.0
    }

    open spec fn ymd_error(d: CommonDate) -> Option<CalendarError> {
        coptic_error(d)
    }

    open spec fn year_start_spec(year: int) -> CommonDate {
        CommonDate { year: year as i32, month: 1, day: 1 }
    }

    open spec fn year_end_spec(year: int) -> CommonDate {
        CommonDate {
            year: year as i32,
            month: 13,
            day: coptic_month_length(coptic_leap(year), 13) as u8,
        }
    }

    fn to_common_date(self) -> (r: CommonDate) {
        proof {
            use_type_invariant(&self);
        }
        self.0
    }

    fn from_common_date_unchecked(d: CommonDate) -> (r: Self) {
        Ethiopic(d)
    }

    fn valid_ymd(date: CommonDate) -> (r: Result<(), CalendarError>) {
        let month_opt = EthiopicMonth::from_u8(date.month);
        match month_opt {
            None => Err(CalendarError::InvalidMonth),
            Some(m) => {
                if date.day < 1 {
                    Err(CalendarError::InvalidDay)
                } else if date.day > m.length(Ethiopic::is_leap(date.year)) {
                    Err(CalendarError::InvalidDay)
                } else {
                    Ok(())
                }
            },
        }
    }

    fn year_start_date(year: i32) -> (r: CommonDate) {
        CommonDate::new(year, 1, 1)
    }

    fn year_end_date(year: i32) -> (r: CommonDate) {
        Coptic::year_end_date(year)
    }
}

impl Epoch for Ethiopic {
    open spec fn epoch_spec() -> int {
        2796
    }

    fn epoch() -> (r: i64) {
        // The Ethiopic era starts on August 29, 8 in the Julian calendar.
        let start = CommonDate::new(8, 8, 29);
        let j = Julian::try_from_common_date(start);
        proof {
            assert(crate::calendar::julian::julian_error(start) is None);
        }
        let r = j.unwrap().to_fixed();
        assert(r == 2796);
        assert(Self::epoch_spec() == 2796);
        r
    }
}

impl ToFixed for Ethiopic {
    open spec fn fixed_spec(self) -> int {
        coptic_scheme_fixed(ETHIOPIC_EPOCH_RD as int, self.common_view())
    }

    fn to_fixed(self) -> (r: i64) {
        let e = Coptic::from_common_date_unchecked(self.to_common_date());
        Ethiopic::epoch() + e.to_fixed() - Coptic::epoch()
    }
}

impl FromFixed for Ethiopic {
    closed spec fn from_fixed_spec(date: int) -> Self {
        Ethiopic(coptic_scheme_from_fixed(ETHIOPIC_EPOCH_RD as int, date))
    }

    fn from_fixed(date: i64) -> (r: Self)
        ensures
            r.common_view() == coptic_scheme_from_fixed(ETHIOPIC_EPOCH_RD as int, date as int),
    {
        let ord = coptic_scheme_ordinal(Ethiopic::epoch(), date);
        let leap = Ethiopic::is_leap(ord.year);
        let (month, day) = coptic_scheme_month_day(leap, ord.day_of_year);
        let r = Ethiopic(CommonDate::new(ord.year, month, day));
        proof {
            lemma_coptic_from_fixed_unique(ETHIOPIC_EPOCH_RD as int, r.0, date as int);
        }
        r
    }
}

impl Quarter for Ethiopic {
    open spec fn quarter_spec(self) -> int {
        if self.common_view().month == 13 {
            4
        } else {
            (self.common_view().month - 1) / 3 + 1
        }
    }

    fn quarter(self) -> (r: u8) {
        if self.month() == EthiopicMonth::Paguemen {
            4
        } else {
            ((self.month().to_u8() - 1) / 3) + 1
        }
    }
}

impl CommonWeekOfYear for Ethiopic {
    open spec fn fixed_of_date(d: CommonDate) -> int {
        coptic_scheme_fixed(ETHIOPIC_EPOCH_RD as int, d)
    }

    proof fn lemma_fixed_of_date(x: Self) {
    }
}


impl CalculatedBounds for Ethiopic {
    open spec fn valid_date(self) -> bool {
        coptic_error(self.common_view()) is None
    }

    proof fn lemma_from_fixed_keeps_day(date: int) {
        law_coptic_fixed_roundtrip(ETHIOPIC_EPOCH_RD as int, date);
    }

    proof fn lemma_to_fixed_and_back(x: Self) {
        law_coptic_date_roundtrip(ETHIOPIC_EPOCH_RD as int, x.common_view());
    }
}


impl GuaranteedMonth<EthiopicMonth> for Ethiopic {
    open spec fn month_number(m: EthiopicMonth) -> int {
        ethiopic_month_number(m)
    }

    fn month(self) -> (r: EthiopicMonth) {
        Ethiopic::month(self)
    }
}

/// A date's quarter holds its month: January to March (the first three months) in the
/// first, the next three in the second, then the third, and the last three in the fourth.
/// Paguemen, the thirteenth month, is in the fourth quarter.
pub proof fn law_ethiopic_quarter(x: Ethiopic)
    ensures
        month_in_quarter(x.common_view().month as int, x.quarter_spec()),
        x.common_view().month as int == 13 ==> x.quarter_spec() == 4,
{
}

/// The first day of the Ethiopic calendar, 1 Meskerem of year 1, is August 29 of AD 8 in the
/// Julian calendar.
pub proof fn law_ethiopic_epoch()
    ensures
        coptic_scheme_fixed(ETHIOPIC_EPOCH_RD as int, CommonDate { year: 1, month: 1, day: 1 }) == julian_fixed(CommonDate { year: 8, month: 8, day: 29 }),
{
}

} // verus!
