use crate::calendar::gregorian::gregorian_day_of_year;
use crate::calendar::gregorian::gregorian_error;
use crate::calendar::gregorian::gregorian_fixed;
use crate::calendar::gregorian::gregorian_from_fixed;
use crate::calendar::gregorian::gregorian_leap;
use crate::calendar::gregorian::gregorian_month_number;
use crate::calendar::gregorian::gregorian_ordinal_valid;
use crate::calendar::gregorian::gregorian_prior_elapsed;
use crate::calendar::gregorian::law_gregorian_date_roundtrip;
use crate::calendar::gregorian::law_gregorian_fixed_roundtrip;
use crate::calendar::gregorian::lemma_gregorian_cycle_shift;
use crate::calendar::gregorian::month_quarter;
use crate::calendar::gregorian::prior_elapsed_days_wide;
use crate::calendar::gregorian::solar_month_length;
use crate::calendar::gregorian::Gregorian;
use crate::calendar::gregorian::GregorianMonth;
use crate::calendar::prelude::HasLeapYears;
use crate::calendar::prelude::Quarter;
use crate::calendar::prelude::CommonWeekOfYear;
use crate::calendar::prelude::ToFromCommonDate;
use crate::calendar::prelude::ToFromOrdinalDate;
use crate::common::date::CommonDate;
use crate::common::date::OrdinalDate;
use crate::common::error::CalendarError;
use crate::day_count::fixed::Epoch;
use crate::day_count::fixed::FromFixed;
use crate::day_count::fixed::ToFixed;
use crate::day_count::fixed::CalculatedBounds;
use crate::day_count::fixed::fixed_in_bounds;
use crate::calendar::prelude::GuaranteedMonth;
use crate::calendar::prelude::month_in_quarter;
use vstd::prelude::*;

verus! {

/// Holocene years are Gregorian years plus this offset's negation.
pub const HOLOCENE_YEAR_OFFSET: i32 = -10000;

/// The months of the Holocene calendar are those of the Gregorian calendar.
pub type HoloceneMonth = GregorianMonth;

/// The Gregorian date with the same month and day, in the corresponding Gregorian year.
pub open spec fn holocene_to_gregorian(d: CommonDate) -> CommonDate {
    CommonDate { year: (d.year + HOLOCENE_YEAR_OFFSET) as i32, month: d.month, day: d.day }
}

/// The day count of a Holocene date.
pub open spec fn holocene_fixed(d: CommonDate) -> int {
    gregorian_prior_elapsed(d.year + HOLOCENE_YEAR_OFFSET) + gregorian_day_of_year(d)
}

/// The Holocene date of a day count: the Gregorian date, 10000 years later in numbering.
pub open spec fn holocene_from_fixed(date: int) -> CommonDate {
    let g = gregorian_from_fixed(date);
    CommonDate { year: (g.year - HOLOCENE_YEAR_OFFSET) as i32, month: g.month, day: g.day }
}

/// Represents a date in the Holocene calendar.
#[derive(Debug, Clone, Copy, PartialEq, Eq, Structural)]
pub struct Holocene(CommonDate);

impl Holocene {
    #[verifier::type_invariant]
    spec fn valid(self) -> bool {
        gregorian_error(self.0) is None
    }

    /// The length of a month in a given year.
    pub fn month_length(year: i32, month: HoloceneMonth) -> (r: u8)
        ensures
            r == solar_month_length(gregorian_leap(year as int), gregorian_month_number(month)),
    {
        Gregorian::month_length(year, month)
    }

    /// The month of the date.
    pub fn month(self) -> (r: HoloceneMonth)
        ensures
            gregorian_month_number(r) == self.common_view().month,
    {
        proof {
            use_type_invariant(&self);
        }
        GregorianMonth::from_u8(self.0.month).unwrap()
    }

    /// Attempts to build a Holocene date.
    pub fn try_new(year: i32, month: HoloceneMonth, day: u8) -> (r: Result<
        Holocene,
        CalendarError,
    >)
        ensures
            ({
                let d = CommonDate { year, month: gregorian_month_number(month) as u8, day };
                &&& gregorian_error(d) is None ==> (r matches Ok(x) && x.common_view() == d)
                &&& gregorian_error(d) matches Some(e) ==> r == Err::<Holocene, CalendarError>(e)
            }),
    {
        Holocene::try_from_common_date(CommonDate::new(year, month.to_u8(), day))
    }
}

/// Holocene years have the same leap years as the Gregorian years they stand for.
proof fn lemma_holocene_leap(y: int)
    ensures
        gregorian_leap(y + HOLOCENE_YEAR_OFFSET) == gregorian_leap(y),
        gregorian_prior_elapsed(y + HOLOCENE_YEAR_OFFSET) == gregorian_prior_elapsed(y)
            - 3652425,
{
    lemma_gregorian_cycle_shift(y, -25);
}

/// The day count of a Holocene date is that of the Gregorian date it stands for.
pub proof fn law_holocene_is_shifted_gregorian(d: CommonDate)
    requires
        i32::MIN - HOLOCENE_YEAR_OFFSET <= d.year,
    ensures
        holocene_fixed(d) == gregorian_fixed(holocene_to_gregorian(d)),
        gregorian_error(d) == gregorian_error(holocene_to_gregorian(d)),
{
    lemma_holocene_leap(d.year as int);
}

/// Converting a valid Holocene date to its day count and back gives the same date.
pub proof fn law_holocene_date_roundtrip(d: CommonDate)
    requires
        gregorian_error(d) is None,
        i32::MIN - HOLOCENE_YEAR_OFFSET <= d.year,
    ensures
        holocene_from_fixed(holocene_fixed(d)) == d,
{
    law_holocene_is_shifted_gregorian(d);
    law_gregorian_date_roundtrip(holocene_to_gregorian(d));
}

impl HasLeapYears for Holocene {
    open spec fn leap_spec(year: int) -> bool {
        gregorian_leap(year)
    }

    fn is_leap(h_year: i32) -> (r: bool) {
        Gregorian::is_leap(h_year)
    }
}

impl ToFromCommonDate for Holocene {
    closed spec fn common_view(self) -> CommonDate {
        self.0
    }

    open spec fn ymd_error(d: CommonDate) -> Option<CalendarError> {
        gregorian_error(d)
    }

    open spec fn year_start_spec(year: int) -> CommonDate {
        CommonDate { year: year as i32, month: 1, day: 1 }
    }

    open spec fn year_end_spec(year: int) -> CommonDate {
        CommonDate { year: year as i32, month: 12, day: 31 }
    }

    fn to_common_date(self) -> (r: CommonDate) {
        proof {
            use_type_invariant(&self);
        }
        self.0
    }

    fn from_common_date_unchecked(d: CommonDate) -> (r: Self) {
        Holocene(d)
    }

    fn valid_ymd(date: CommonDate) -> (r: Result<(), CalendarError>) {
        Gregorian::valid_ymd(date)
    }

    fn year_start_date(year: i32) -> (r: CommonDate) {
        Gregorian::year_start_date(year)
    }

    fn year_end_date(year: i32) -> (r: CommonDate) {
        Gregorian::year_end_date(year)
    }
}

impl ToFromOrdinalDate for Holocene {
    open spec fn ordinal_error(ord: OrdinalDate) -> Option<CalendarError> {
        if gregorian_ordinal_valid(ord) {
            None
        } else {
            Some(CalendarError::InvalidDayOfYear)
        }
    }

    open spec fn ordinal_of(d: CommonDate) -> OrdinalDate {
        OrdinalDate { year: d.year, day_of_year: gregorian_day_of_year(d) as u16 }
    }

    open spec fn fixed_of_ordinal(ord: OrdinalDate) -> int {
        gregorian_prior_elapsed(ord.year + HOLOCENE_YEAR_OFFSET) + ord.day_of_year
    }

    fn valid_ordinal(ord: OrdinalDate) -> (r: Result<(), CalendarError>) {
        Gregorian::valid_ordinal(ord)
    }

    fn ordinal_from_fixed(fixed_date: i64) -> (r: OrdinalDate) {
        let g_ord = Gregorian::ordinal_from_fixed(fixed_date);
        proof {
            law_gregorian_fixed_roundtrip(fixed_date as int);
            let (y, doy) = (g_ord.year as int, g_ord.day_of_year as int);
            lemma_holocene_leap(y - HOLOCENE_YEAR_OFFSET);
            let c = gregorian_from_fixed(fixed_date as int);
            crate::calendar::gregorian::lemma_gregorian_fixed_in_year(c);
            if y > c.year {
                crate::calendar::gregorian::lemma_gregorian_prior_monotone(c.year as int, y);
            } else if y < c.year {
                crate::calendar::gregorian::lemma_gregorian_prior_monotone(y, c.year as int);
            }
        }
        OrdinalDate { year: g_ord.year - HOLOCENE_YEAR_OFFSET, day_of_year: g_ord.day_of_year }
    }

    fn to_ordinal(self) -> (r: OrdinalDate)
        ensures
            Self::ordinal_error(r) is None,
    {
        let g = Gregorian::from_common_date_unchecked(self.to_common_date());
        g.to_ordinal()
    }

    fn from_ordinal_unchecked(ord: OrdinalDate) -> (r: Self) {
        let e = Gregorian::from_ordinal_unchecked(ord);
        Holocene::from_common_date_unchecked(e.to_common_date())
    }
}

impl Epoch for Holocene {
    open spec fn epoch_spec() -> int {
        -3652424
    }

    fn epoch() -> (r: i64) {
        let g = Gregorian::try_year_start(HOLOCENE_YEAR_OFFSET + 1);
        let r = g.unwrap().to_fixed();
        assert(r == -3652424);
        assert(Self::epoch_spec() == -3652424);
        r
    }
}

impl ToFixed for Holocene {
    open spec fn fixed_spec(self) -> int {
        holocene_fixed(self.common_view())
    }

    fn to_fixed(self) -> (r: i64) {
        proof {
            use_type_invariant(&self);
        }
        let prior = prior_elapsed_days_wide((self.0.year as i64) + (HOLOCENE_YEAR_OFFSET as i64));
        let ord = self.to_ordinal();
        prior + (ord.day_of_year as i64)
    }
}

impl FromFixed for Holocene {
    closed spec fn from_fixed_spec(date: int) -> Self {
        Holocene(holocene_from_fixed(date))
    }

    fn from_fixed(date: i64) -> (r: Self)
        ensures
            r.common_view() == holocene_from_fixed(date as int),
    {
        let result = Gregorian::from_fixed(date).to_common_date();
        proof {
            law_gregorian_fixed_roundtrip(date as int);
            lemma_holocene_leap(result.year - HOLOCENE_YEAR_OFFSET);
        }
        Holocene(CommonDate::new(result.year - HOLOCENE_YEAR_OFFSET, result.month, result.day))
    }
}

impl Quarter for Holocene {
    open spec fn quarter_spec(self) -> int {
        month_quarter(self.common_view().month as int)
    }

    fn quarter(self) -> (r: u8) {
        proof {
            use_type_invariant(&self);
        }
        let m: u8 = self.to_common_date().month;
        let r: u8 = (m - 1) / 3 + 1;
        assert(self.quarter_spec() == month_quarter(m as int));
        r
    }
}

impl CommonWeekOfYear for Holocene {
    open spec fn fixed_of_date(d: CommonDate) -> int {
        holocene_fixed(d)
    }

    proof fn lemma_fixed_of_date(x: Self) {
    }
}


/// Every day count within the supported range is the day count of a Holocene date, and
/// `holocene_from_fixed` finds it.
pub proof fn law_holocene_fixed_roundtrip(date: int)
    requires
        fixed_in_bounds(date),
    ensures
        gregorian_error(holocene_from_fixed(date)) is None,
        holocene_fixed(holocene_from_fixed(date)) == date,
{
    law_gregorian_fixed_roundtrip(date);
    let h = holocene_from_fixed(date);
    law_holocene_is_shifted_gregorian(h);
    assert(holocene_to_gregorian(h) == gregorian_from_fixed(date));
}

impl CalculatedBounds for Holocene {
    open spec fn valid_date(self) -> bool {
        gregorian_error(self.common_view()) is None && i32::MIN - HOLOCENE_YEAR_OFFSET
            <= self.common_view().year
    }

    proof fn lemma_from_fixed_keeps_day(date: int) {
        law_holocene_fixed_roundtrip(date);
    }

    proof fn lemma_to_fixed_and_back(x: Self) {
        law_holocene_date_roundtrip(x.common_view());
    }
}


impl GuaranteedMonth<HoloceneMonth> for Holocene {
    open spec fn month_number(m: HoloceneMonth) -> int {
        gregorian_month_number(m)
    }

    fn month(self) -> (r: HoloceneMonth) {
        Holocene::month(self)
    }
}

/// A date's quarter holds its month: January to March (the first three months) in the
/// first, the next three in the second, then the third, and the last three in the fourth.
pub proof fn law_holocene_quarter(x: Holocene)
    ensures
        month_in_quarter(x.common_view().month as int, x.quarter_spec()),
{
}

} // verus!
