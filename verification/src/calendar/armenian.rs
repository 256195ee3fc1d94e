use crate::calendar::egyptian::egyptian_date_of_days;
use crate::calendar::egyptian::egyptian_days_since_epoch;
use crate::calendar::egyptian::egyptian_error;
use crate::calendar::egyptian::law_egyptian_date_roundtrip;
use crate::calendar::egyptian::law_egyptian_fixed_roundtrip;
use crate::calendar::egyptian::Egyptian;
use crate::calendar::egyptian::EGYPTIAN_NON_MONTH;
use crate::calendar::prelude::Quarter;
use crate::calendar::prelude::CommonWeekOfYear;
use crate::calendar::prelude::ToFromCommonDate;
use crate::common::date::CommonDate;
use crate::common::error::CalendarError;
use crate::common::math::div_floor;
use crate::common::math::mod_floor;
use crate::day_count::fixed::Epoch;
use crate::day_count::fixed::FromFixed;
use crate::day_count::fixed::ToFixed;
use crate::day_count::fixed::CalculatedBounds;
use crate::calendar::prelude::TryMonth;
use crate::calendar::prelude::month_in_quarter;
use crate::calendar::julian::julian_fixed;
use vstd::prelude::*;

verus! {

/// The day count of the first day of the Armenian era (July 11, 552 AD in the Julian calendar).
pub const ARMENIAN_EPOCH_RD: i64 = 201443;

/// A month of the Armenian calendar.
#[derive(Debug, Clone, Copy, PartialEq, Eq, PartialOrd, Ord, Hash, Structural)]
pub enum ArmenianMonth {
    Nawasardi,
    Hori,
    Sahmi,
    Tre,
    Kaloch,
    Arach,
    Mehekani,
    Areg,
    Ahekani,
    Mareri,
    Margach,
    Hrotich,
}

/// The number of each value of `ArmenianMonth`.
pub open spec fn armenian_month_number(m: ArmenianMonth) -> int {
    match m {
        ArmenianMonth::Nawasardi => 1,
        ArmenianMonth::Hori => 2,
        ArmenianMonth::Sahmi => 3,
        ArmenianMonth::Tre => 4,
        ArmenianMonth::Kaloch => 5,
        ArmenianMonth::Arach => 6,
        ArmenianMonth::Mehekani => 7,
        ArmenianMonth::Areg => 8,
        ArmenianMonth::Ahekani => 9,
        ArmenianMonth::Mareri => 10,
        ArmenianMonth::Margach => 11,
        ArmenianMonth::Hrotich => 12,
    }
}

impl ArmenianMonth {
    /// The number of the value.
    pub fn to_u8(self) -> (r: u8)
        ensures
            r == armenian_month_number(self),
    {
        match self {
            ArmenianMonth::Nawasardi => 1,
            ArmenianMonth::Hori => 2,
            ArmenianMonth::Sahmi => 3,
            ArmenianMonth::Tre => 4,
            ArmenianMonth::Kaloch => 5,
            ArmenianMonth::Arach => 6,
            ArmenianMonth::Mehekani => 7,
            ArmenianMonth::Areg => 8,
            ArmenianMonth::Ahekani => 9,
            ArmenianMonth::Mareri => 10,
            ArmenianMonth::Margach => 11,
            ArmenianMonth::Hrotich => 12,
        }
    }

    /// The value with the given number, if there is one.
    pub fn from_u8(n: u8) -> (r: Option<ArmenianMonth>)
        ensures
            1 <= n <= 12 ==> (r matches Some(m) && armenian_month_number(m) == n),
            !(1 <= n <= 12) ==> r is None,
    {
        match n {
            1 => Some(ArmenianMonth::Nawasardi),
            2 => Some(ArmenianMonth::Hori),
            3 => Some(ArmenianMonth::Sahmi),
            4 => Some(ArmenianMonth::Tre),
            5 => Some(ArmenianMonth::Kaloch),
            6 => Some(ArmenianMonth::Arach),
            7 => Some(ArmenianMonth::Mehekani),
            8 => Some(ArmenianMonth::Areg),
            9 => Some(ArmenianMonth::Ahekani),
            10 => Some(ArmenianMonth::Mareri),
            11 => Some(ArmenianMonth::Margach),
            12 => Some(ArmenianMonth::Hrotich),
            _ => None,
        }
    }
}

/// The name of a day of a month of the Armenian calendar.
#[derive(Debug, Clone, Copy, PartialEq, Eq, PartialOrd, Ord, Hash, Structural)]
pub enum ArmenianDaysOfMonth {
    Areg,
    Hrand,
    Aram,
    Margar,
    Ahrank,
    Mazdel,
    Astlik,
    Mihr,
    Jopaber,
    Murc,
    Erezhan,
    Ani,
    Parkhar,
    Vanat,
    Aramazd,
    Mani,
    Asak,
    Masis,
    Anahit,
    Aragats,
    Gorgor,
    Kordvik,
    Tsmak,
    Lusnak,
    Tsron,
    Npat,
    Vahagn,
    Sim,
    Varag,
    Giseravar,
}

/// The number of each value of `ArmenianDaysOfMonth`.
pub open spec fn armenian_days_of_month_number(m: ArmenianDaysOfMonth) -> int {
    match m {
        ArmenianDaysOfMonth::Areg => 1,
        ArmenianDaysOfMonth::Hrand => 2,
        ArmenianDaysOfMonth::Aram => 3,
        ArmenianDaysOfMonth::Margar => 4,
        ArmenianDaysOfMonth::Ahrank => 5,
        ArmenianDaysOfMonth::Mazdel => 6,
        ArmenianDaysOfMonth::Astlik => 7,
        ArmenianDaysOfMonth::Mihr => 8,
        ArmenianDaysOfMonth::Jopaber => 9,
        ArmenianDaysOfMonth::Murc => 10,
        ArmenianDaysOfMonth::Erezhan => 11,
        ArmenianDaysOfMonth::Ani => 12,
        ArmenianDaysOfMonth::Parkhar => 13,
        ArmenianDaysOfMonth::Vanat => 14,
        ArmenianDaysOfMonth::Aramazd => 15,
        ArmenianDaysOfMonth::Mani => 16,
        ArmenianDaysOfMonth::Asak => 17,
        ArmenianDaysOfMonth::Masis => 18,
        ArmenianDaysOfMonth::Anahit => 19,
        ArmenianDaysOfMonth::Aragats => 20,
        ArmenianDaysOfMonth::Gorgor => 21,
        ArmenianDaysOfMonth::Kordvik => 22,
        ArmenianDaysOfMonth::Tsmak => 23,
        ArmenianDaysOfMonth::Lusnak => 24,
        ArmenianDaysOfMonth::Tsron => 25,
        ArmenianDaysOfMonth::Npat => 26,
        ArmenianDaysOfMonth::Vahagn => 27,
        ArmenianDaysOfMonth::Sim => 28,
        ArmenianDaysOfMonth::Varag => 29,
        ArmenianDaysOfMonth::Giseravar => 30,
    }
}

impl ArmenianDaysOfMonth {
    /// The number of the value.
    pub fn to_u8(self) -> (r: u8)
        ensures
            r == armenian_days_of_month_number(self),
    {
        match self {
            ArmenianDaysOfMonth::Areg => 1,
            ArmenianDaysOfMonth::Hrand => 2,
            ArmenianDaysOfMonth::Aram => 3,
            ArmenianDaysOfMonth::Margar => 4,
            ArmenianDaysOfMonth::Ahrank => 5,
            ArmenianDaysOfMonth::Mazdel => 6,
            ArmenianDaysOfMonth::Astlik => 7,
            ArmenianDaysOfMonth::Mihr => 8,
            ArmenianDaysOfMonth::Jopaber => 9,
            ArmenianDaysOfMonth::Murc => 10,
            ArmenianDaysOfMonth::Erezhan => 11,
            ArmenianDaysOfMonth::Ani => 12,
            ArmenianDaysOfMonth::Parkhar => 13,
            ArmenianDaysOfMonth::Vanat => 14,
            ArmenianDaysOfMonth::Aramazd => 15,
            ArmenianDaysOfMonth::Mani => 16,
            ArmenianDaysOfMonth::Asak => 17,
            ArmenianDaysOfMonth::Masis => 18,
            ArmenianDaysOfMonth::Anahit => 19,
            ArmenianDaysOfMonth::Aragats => 20,
            ArmenianDaysOfMonth::Gorgor => 21,
            ArmenianDaysOfMonth::Kordvik => 22,
            ArmenianDaysOfMonth::Tsmak => 23,
            ArmenianDaysOfMonth::Lusnak => 24,
            ArmenianDaysOfMonth::Tsron => 25,
            ArmenianDaysOfMonth::Npat => 26,
            ArmenianDaysOfMonth::Vahagn => 27,
            ArmenianDaysOfMonth::Sim => 28,
            ArmenianDaysOfMonth::Varag => 29,
            ArmenianDaysOfMonth::Giseravar => 30,
        }
    }

    /// The value with the given number, if there is one.
    pub fn from_u8(n: u8) -> (r: Option<ArmenianDaysOfMonth>)
        ensures
            1 <= n <= 30 ==> (r matches Some(m) && armenian_days_of_month_number(m) == n),
            !(1 <= n <= 30) ==> r is None,
    {
        match n {
            1 => Some(ArmenianDaysOfMonth::Areg),
            2 => Some(ArmenianDaysOfMonth::Hrand),
            3 => Some(ArmenianDaysOfMonth::Aram),
            4 => Some(ArmenianDaysOfMonth::Margar),
            5 => Some(ArmenianDaysOfMonth::Ahrank),
            6 => Some(ArmenianDaysOfMonth::Mazdel),
            7 => Some(ArmenianDaysOfMonth::Astlik),
            8 => Some(ArmenianDaysOfMonth::Mihr),
            9 => Some(ArmenianDaysOfMonth::Jopaber),
            10 => Some(ArmenianDaysOfMonth::Murc),
            11 => Some(ArmenianDaysOfMonth::Erezhan),
            12 => Some(ArmenianDaysOfMonth::Ani),
            13 => Some(ArmenianDaysOfMonth::Parkhar),
            14 => Some(ArmenianDaysOfMonth::Vanat),
            15 => Some(ArmenianDaysOfMonth::Aramazd),
            16 => Some(ArmenianDaysOfMonth::Mani),
            17 => Some(ArmenianDaysOfMonth::Asak),
            18 => Some(ArmenianDaysOfMonth::Masis),
            19 => Some(ArmenianDaysOfMonth::Anahit),
            20 => Some(ArmenianDaysOfMonth::Aragats),
            21 => Some(ArmenianDaysOfMonth::Gorgor),
            22 => Some(ArmenianDaysOfMonth::Kordvik),
            23 => Some(ArmenianDaysOfMonth::Tsmak),
            24 => Some(ArmenianDaysOfMonth::Lusnak),
            25 => Some(ArmenianDaysOfMonth::Tsron),
            26 => Some(ArmenianDaysOfMonth::Npat),
            27 => Some(ArmenianDaysOfMonth::Vahagn),
            28 => Some(ArmenianDaysOfMonth::Sim),
            29 => Some(ArmenianDaysOfMonth::Varag),
            30 => Some(ArmenianDaysOfMonth::Giseravar),
            _ => None,
        }
    }
}

/// The day count of an Armenian date: the Egyptian scheme of 365-day years, from its own epoch.
pub open spec fn armenian_fixed(d: CommonDate) -> int {
    ARMENIAN_EPOCH_RD + egyptian_days_since_epoch(d)
}

/// The Armenian date of a day count.
pub open spec fn armenian_from_fixed(date: int) -> CommonDate {
    egyptian_date_of_days(date - ARMENIAN_EPOCH_RD)
}

/// Represents a date in the Armenian calendar.
#[derive(Debug, Clone, Copy, PartialEq, Eq, Structural)]
pub struct Armenian(CommonDate);

impl Armenian {
    #[verifier::type_invariant]
    spec fn valid(self) -> bool {
        egyptian_error(self.0) is None
    }

    /// The name of the day of the month, unless the date is an epagomenal day.
    pub fn day_name(self) -> (r: Option<ArmenianDaysOfMonth>)
        ensures
            self.common_view().month == EGYPTIAN_NON_MONTH ==> r is None,
            self.common_view().month != EGYPTIAN_NON_MONTH ==> (r matches Some(n)
                && armenian_days_of_month_number(n) == self.common_view().day),
    {
        proof {
            use_type_invariant(&self);
        }
        if self.0.month == EGYPTIAN_NON_MONTH {
            None
        } else {
            ArmenianDaysOfMonth::from_u8(self.0.day)
        }
    }

    /// The month of the date, unless it is an epagomenal day.
    pub fn try_month(self) -> (r: Option<ArmenianMonth>)
        ensures
            self.common_view().month < EGYPTIAN_NON_MONTH ==> (r matches Some(m)
                && armenian_month_number(m) == self.common_view().month),
            self.common_view().month == EGYPTIAN_NON_MONTH ==> r is None,
    {
        proof {
            use_type_invariant(&self);
        }
        ArmenianMonth::from_u8(self.0.month)
    }
}

impl ToFromCommonDate for Armenian {
    closed spec fn common_view(self) -> CommonDate {
        self.0
    }

    open spec fn ymd_error(d: CommonDate) -> Option<CalendarError> {
        egyptian_error(d)
    }

    open spec fn year_start_spec(year: int) -> CommonDate {
        CommonDate { year: year as i32, month: 1, day: 1 }
    }

    open spec fn year_end_spec(year: int) -> CommonDate {
        CommonDate { year: year as i32, month: EGYPTIAN_NON_MONTH, day: 5 }
    }

    fn to_common_date(self) -> (r: CommonDate) {
        proof {
            use_type_invariant(&self);
        }
        self.0
    }

    fn from_common_date_unchecked(d: CommonDate) -> (r: Self) {
        Armenian(d)
    }

    fn valid_ymd(date: CommonDate) -> (r: Result<(), CalendarError>) {
        Egyptian::valid_ymd(date)
    }

    fn year_start_date(year: i32) -> (r: CommonDate) {
        Egyptian::year_start_date(year)
    }

    fn year_end_date(year: i32) -> (r: CommonDate) {
        Egyptian::year_end_date(year)
    }
}

impl Epoch for Armenian {
    open spec fn epoch_spec() -> int {
        201443
    }

    fn epoch() -> (r: i64) {
        assert(Self::epoch_spec() == 201443);
        ARMENIAN_EPOCH_RD
    }
}

impl ToFixed for Armenian {
    open spec fn fixed_spec(self) -> int {
        armenian_fixed(self.common_view())
    }

    fn to_fixed(self) -> (r: i64) {
        let e = Egyptian::from_common_date_unchecked(self.to_common_date());
        Armenian::epoch() + e.to_fixed() - Egyptian::epoch()
    }
}

impl FromFixed for Armenian {
    closed spec fn from_fixed_spec(date: int) -> Self {
        Armenian(armenian_from_fixed(date))
    }

    fn from_fixed(date: i64) -> (r: Self)
        ensures
            r.common_view() == armenian_from_fixed(date as int),
    {
        let days = date - Armenian::epoch();
        proof {
            law_egyptian_fixed_roundtrip(days as int);
            crate::calendar::arith::lemma_div_mod_parts(days as int, 365);
        }
        let year = div_floor(days, 365) + 1;
        let month = div_floor(mod_floor(days, 365), 30) + 1;
        let day = days - (365 * (year - 1)) - (30 * (month - 1)) + 1;
        Armenian(CommonDate { year: year as i32, month: month as u8, day: day as u8 })
    }
}

impl Quarter for Armenian {
    open spec fn quarter_spec(self) -> int {
        if self.common_view().month == EGYPTIAN_NON_MONTH {
            4
        } else {
            (self.common_view().month - 1) / 3 + 1
        }
    }

    fn quarter(self) -> (r: u8) {
        proof {
            use_type_invariant(&self);
        }
        let m = self.to_common_date().month;
        if m == EGYPTIAN_NON_MONTH {
            4
        } else {
            ((m - 1) / 3) + 1
        }
    }
}

/// Converting a valid Armenian date to its day count and back gives the same date.
pub proof fn law_armenian_date_roundtrip(d: CommonDate)
    requires
        egyptian_error(d) is None,
    ensures
        armenian_from_fixed(armenian_fixed(d)) == d,
{
    law_egyptian_date_roundtrip(d);
}

impl CommonWeekOfYear for Armenian {
    open spec fn fixed_of_date(d: CommonDate) -> int {
        armenian_fixed(d)
    }

    proof fn lemma_fixed_of_date(x: Self) {
    }
}


impl CalculatedBounds for Armenian {
    open spec fn valid_date(self) -> bool {
        egyptian_error(self.common_view()) is None
    }

    proof fn lemma_from_fixed_keeps_day(date: int) {
        law_egyptian_fixed_roundtrip(date - ARMENIAN_EPOCH_RD);
    }

    proof fn lemma_to_fixed_and_back(x: Self) {
        law_armenian_date_roundtrip(x.common_view());
    }
}


impl TryMonth<ArmenianMonth> for Armenian {
    open spec fn month_number(m: ArmenianMonth) -> int {
        armenian_month_number(m)
    }

    open spec fn in_month(self) -> bool {
        self.common_view().month < EGYPTIAN_NON_MONTH
    }

    fn try_month(self) -> (r: Option<ArmenianMonth>) {
        proof {
            use_type_invariant(&self);
        }
        Armenian::try_month(self)
    }
}

/// A date's quarter holds its month: January to March (the first three months) in the
/// first, the next three in the second, then the third, and the last three in the fourth.
/// The five days after the twelfth month are in the fourth quarter.
pub proof fn law_armenian_quarter(x: Armenian)
    ensures
        month_in_quarter(x.common_view().month as int, x.quarter_spec()),
        x.common_view().month as int == 13 ==> x.quarter_spec() == 4,
{
}

/// The first day of the Armenian calendar, 1 Nawasardi of year 1, is July 11 of AD 552 in
/// the Julian calendar.
pub proof fn law_armenian_epoch()
    ensures
        armenian_fixed(CommonDate { year: 1, month: 1, day: 1 }) == julian_fixed(CommonDate { year: 552, month: 7, day: 11 }),
{
}

} // verus!
