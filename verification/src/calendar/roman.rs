use crate::calendar::gregorian::gregorian_month_number;
use crate::calendar::gregorian::solar_month_length;
use crate::calendar::gregorian::GregorianMonth;
use crate::calendar::julian::julian_error;
use crate::calendar::julian::julian_fixed;
use crate::calendar::julian::julian_from_fixed;
use crate::calendar::julian::julian_leap;
use crate::calendar::julian::julian_next_year;
use crate::calendar::julian::law_julian_fixed_roundtrip;
use crate::calendar::julian::lemma_julian_from_fixed_unique;
use crate::calendar::julian::lemma_julian_next_month_start;
use crate::calendar::julian::Julian;
use crate::calendar::julian::JulianMonth;
use crate::calendar::prelude::HasLeapYears;
use crate::calendar::prelude::Quarter;
use crate::calendar::prelude::ToFromCommonDate;
use crate::common::date::CommonDate;
use crate::common::math::adjusted_remainder;
use crate::day_count::fixed::fixed_in_bounds;
use crate::day_count::fixed::FromFixed;
use crate::day_count::fixed::ToFixed;
use std::cmp::Ordering;
use crate::calendar::prelude::month_in_quarter;
use vstd::prelude::*;
use vstd::std_specs::cmp::PartialOrdSpec;
use vstd::std_specs::cmp::PartialOrdSpecImpl;

verus! {

/// The Julian year in which Rome was founded, by tradition.
pub const YEAR_ROME_FOUNDED_JULIAN: i32 = -753;

/// A key day of a Roman month, from which the other days are counted.
#[derive(Debug, Clone, Copy, PartialEq, Eq, PartialOrd, Ord, Hash, Structural)]
pub enum RomanMonthlyEvent {
    Kalends,
    Nones,
    Ides,
}

/// The number of each value of `RomanMonthlyEvent`.
pub open spec fn roman_monthly_event_number(m: RomanMonthlyEvent) -> int {
    match m {
        RomanMonthlyEvent::Kalends => 1,
        RomanMonthlyEvent::Nones => 2,
        RomanMonthlyEvent::Ides => 3,
    }
}

impl RomanMonthlyEvent {
    /// The number of the value.
    pub fn to_u8(self) -> (r: u8)
        ensures
            r == roman_monthly_event_number(self),
    {
        match self {
            RomanMonthlyEvent::Kalends => 1,
            RomanMonthlyEvent::Nones => 2,
            RomanMonthlyEvent::Ides => 3,
        }
    }

    /// The value with the given number, if there is one.
    pub fn from_u8(n: u8) -> (r: Option<RomanMonthlyEvent>)
        ensures
            1 <= n <= 3 ==> (r matches Some(m) && roman_monthly_event_number(m) == n),
            !(1 <= n <= 3) ==> r is None,
    {
        match n {
            1 => Some(RomanMonthlyEvent::Kalends),
            2 => Some(RomanMonthlyEvent::Nones),
            3 => Some(RomanMonthlyEvent::Ides),
            _ => None,
        }
    }
}


/// The months of the Roman calendar after the Julian reform are the Julian months.
pub type RomanMonth = JulianMonth;

/// The day of the Ides in a month: the 15th in March, May, July and October, else the 13th.
pub open spec fn ides_spec(month: int) -> int {
    if month == 3 || month == 5 || month == 7 || month == 10 {
        15
    } else {
        13
    }
}

/// The day of the Nones: eight days before the Ides.
pub open spec fn nones_spec(month: int) -> int {
    ides_spec(month) - 8
}

impl GregorianMonth {
    /// The day of the month on which the Ides fall.
    pub fn ides_of_month(self) -> (r: u8)
        ensures
            r == ides_spec(gregorian_month_number(self)),
    {
        match self {
            GregorianMonth::July => 15,
            GregorianMonth::March => 15,
            GregorianMonth::May => 15,
            GregorianMonth::October => 15,
            _ => 13,
        }
    }

    /// The day of the month on which the Nones fall.
    pub fn nones_of_month(self) -> (r: u8)
        ensures
            r == nones_spec(gregorian_month_number(self)),
    {
        self.ides_of_month() - 8
    }
}

/// The day of the month of a key day, by the month's number and the event's number.
pub open spec fn event_day(month: int, event: int) -> int {
    if event == 1 {
        1
    } else if event == 2 {
        nones_spec(month)
    } else {
        ides_spec(month)
    }
}

/// The day count of a Roman date given as its year, month number, event number, count and
/// leap flag. The count includes both ends; in a leap year the days from the sixth to the
/// sixteenth before the Kalends of March are shifted by the doubled sixth day.
pub open spec fn roman_fixed(v: (int, int, int, int, bool)) -> int {
    let (year, month, event, count, leap) = v;
    let j = julian_fixed(
        CommonDate { year: year as i32, month: month as u8, day: event_day(month, event) as u8 },
    );
    let doubled = julian_leap(year) && month == 3 && event == 1 && 6 <= count <= 16;
    j - count + (if doubled {
        0int
    } else {
        1int
    }) + (if leap {
        1int
    } else {
        0int
    })
}

/// The month after a month number.
pub open spec fn next_month(month: int) -> int {
    if month == 12 {
        1
    } else {
        month + 1
    }
}

/// The year of the month after a month of a year.
pub open spec fn next_month_year(year: int, month: int) -> int {
    if month == 12 {
        julian_next_year(year)
    } else {
        year
    }
}

/// The Roman name of a day count: the Kalends, Nones or Ides on or after the Julian date,
/// with the count of days up to it; in February of a leap year the 24th and the 25th share
/// a count, and the 25th is the doubled day.
pub open spec fn roman_from_fixed(date: int) -> (int, int, int, int, bool) {
    let c = julian_from_fixed(date);
    let year = c.year as int;
    let month = c.month as int;
    let day = c.day as int;
    let month1 = next_month(month);
    let year1 = next_month_year(year, month);
    let kalends1 = julian_fixed(CommonDate { year: year1 as i32, month: month1 as u8, day: 1 });
    if day == 1 {
        (year, month, 1, 1, false)
    } else if day <= nones_spec(month) {
        (year, month, 2, nones_spec(month) - day + 1, false)
    } else if day <= ides_spec(month) {
        (year, month, 3, ides_spec(month) - day + 1, false)
    } else if month != 2 || !julian_leap(year) {
        (year1, month1, 1, kalends1 - date + 1, false)
    } else if day < 25 {
        (year, 3, 1, 30 - day, false)
    } else {
        (year, 3, 1, 31 - day, day == 25)
    }
}

/// Whether one Roman date comes before another: by year, month and event, then by a larger
/// count, then the plain day before the doubled one.
pub open spec fn roman_before(a: (int, int, int, int, bool), b: (int, int, int, int, bool)) -> bool {
    ||| a.0 < b.0
    ||| a.0 == b.0 && a.1 < b.1
    ||| a.0 == b.0 && a.1 == b.1 && a.2 < b.2
    ||| a.0 == b.0 && a.1 == b.1 && a.2 == b.2 && a.3 > b.3
    ||| a.0 == b.0 && a.1 == b.1 && a.2 == b.2 && a.3 == b.3 && !a.4 && b.4
}

/// The BC/AD (Julian) year of a year counted from the founding of Rome (AUC): AUC 1 is
/// 753 BC, written -753, and AUC 754 is AD 1.
pub open spec fn auc_to_julian_year(year: int) -> int {
    if 1 <= year <= 753 {
        year + YEAR_ROME_FOUNDED_JULIAN - 1
    } else {
        year + YEAR_ROME_FOUNDED_JULIAN
    }
}

/// The year counted from the founding of Rome (AUC) of a BC/AD (Julian) year: AD 1 is
/// AUC 754 and 753 BC, written -753, is AUC 1.
pub open spec fn julian_to_auc_year(year: int) -> int {
    if YEAR_ROME_FOUNDED_JULIAN <= year <= -1 {
        year - YEAR_ROME_FOUNDED_JULIAN + 1
    } else {
        year - YEAR_ROME_FOUNDED_JULIAN
    }
}

/// Turning a BC/AD year into an AUC year with `Roman::julian_year_from_auc` and back with
/// `Roman::auc_year_from_julian` gives the same year, and so does the other order; no
/// nonzero year becomes year 0 either way.
pub proof fn law_auc_roundtrip(year: int)
    requires
        year != 0,
    ensures
        auc_to_julian_year(julian_to_auc_year(year)) == year,
        julian_to_auc_year(auc_to_julian_year(year)) == year,
        julian_to_auc_year(year) != 0,
        auc_to_julian_year(year) != 0,
{
}

/// Represents a date in the Roman calendar after the Julian reform: a count of days up to
/// the next Kalends, Nones or Ides of a month.
///
/// This is another way of naming Julian dates; there is no year 0.
#[derive(Debug, Clone, Copy, PartialEq, Eq, Structural)]
pub struct Roman {
    year: i32,
    month: RomanMonth,
    event: RomanMonthlyEvent,
    count: u8,
    leap: bool,
}

impl View for Roman {
    type V = (int, int, int, int, bool);

    closed spec fn view(&self) -> (int, int, int, int, bool) {
        (
            self.year as int,
            gregorian_month_number(self.month),
            roman_monthly_event_number(self.event),
            self.count as int,
            self.leap,
        )
    }
}

impl Roman {
    #[verifier::type_invariant]
    spec fn valid(self) -> bool {
        self.year != 0 && self.count >= 1
    }

    /// The Julian year, which is never zero.
    pub fn year(self) -> (r: i32)
        ensures
            r == self@.0,
            r != 0,
    {
        proof {
            use_type_invariant(&self);
        }
        self.year
    }

    /// The month of the next key day.
    pub fn month(self) -> (r: RomanMonth)
        ensures
            gregorian_month_number(r) == self@.1,
    {
        self.month
    }

    /// The next key day: Kalends, Nones or Ides.
    pub fn event(self) -> (r: RomanMonthlyEvent)
        ensures
            roman_monthly_event_number(r) == self@.2,
    {
        self.event
    }

    /// The count of days up to the key day, both ends included; the key day itself is 1.
    pub fn count(self) -> (r: u8)
        ensures
            r == self@.3,
            r >= 1,
    {
        proof {
            use_type_invariant(&self);
        }
        self.count
    }

    /// Whether this is the doubled sixth day before the Kalends of March in a leap year.
    pub fn leap(self) -> (r: bool)
        ensures
            r == self@.4,
    {
        self.leap
    }

    /// Converts a BC/AD (Julian) year to a year counted from the founding of Rome (AUC):
    /// AD 1 is AUC 754.
    pub fn julian_year_from_auc(year: i32) -> (r: i32)
        requires
            year != 0,
            year <= i32::MAX - 754,
        ensures
            r == julian_to_auc_year(year as int),
            r != 0,
    {
        let j_year = year;
        if YEAR_ROME_FOUNDED_JULIAN <= j_year && j_year <= -1 {
            j_year - YEAR_ROME_FOUNDED_JULIAN + 1
        } else {
            j_year - YEAR_ROME_FOUNDED_JULIAN
        }
    }

    /// Converts a year counted from the founding of Rome (AUC) to a BC/AD (Julian) year:
    /// AUC 1 is 753 BC, written -753.
    pub fn auc_year_from_julian(year: i32) -> (r: i32)
        requires
            year != 0,
            year >= i32::MIN + 754,
        ensures
            r == auc_to_julian_year(year as int),
            r != 0,
    {
        let a_year = year;
        if a_year >= 1 && a_year <= -YEAR_ROME_FOUNDED_JULIAN {
            a_year + YEAR_ROME_FOUNDED_JULIAN - 1
        } else {
            a_year + YEAR_ROME_FOUNDED_JULIAN
        }
    }
}

impl ToFixed for Roman {
    open spec fn fixed_spec(self) -> int {
        roman_fixed(self@)
    }

    fn to_fixed(self) -> (r: i64) {
        proof {
            use_type_invariant(&self);
        }
        let jld = match self.event {
            RomanMonthlyEvent::Kalends => 1,
            RomanMonthlyEvent::Nones => self.month.nones_of_month(),
            RomanMonthlyEvent::Ides => self.month.ides_of_month(),
        };
        let jlc = CommonDate::new(self.year, self.month.to_u8(), jld);
        let julian = Julian::try_from_common_date(jlc);
        proof {
            assert(julian_error(jlc) is None);
        }
        let j = julian.unwrap().to_fixed();
        let c = self.count as i64;
        let do_lp = Julian::is_leap(self.year) && self.month.to_u8() == 3
            && self.event.to_u8() == 1 && self.count <= 16 && self.count >= 6;
        let lp0: i64 = if do_lp {
            0
        } else {
            1
        };
        let lp1: i64 = if self.leap {
            1
        } else {
            0
        };
        j - c + lp0 + lp1
    }
}

impl FromFixed for Roman {
    closed spec fn from_fixed_spec(date: int) -> Self {
        let v = roman_from_fixed(date);
        Roman {
            year: v.0 as i32,
            month: choose|m: RomanMonth| gregorian_month_number(m) == v.1,
            event: choose|e: RomanMonthlyEvent| roman_monthly_event_number(e) == v.2,
            count: v.3 as u8,
            leap: v.4,
        }
    }

    fn from_fixed(date: i64) -> (r: Self)
        ensures
            r@ == roman_from_fixed(date as int),
    {
        let j = Julian::from_fixed(date);
        proof {
            law_julian_fixed_roundtrip(date as int);
        }
        let j_cdate = j.to_common_date();
        proof {
            lemma_julian_next_month_start(j_cdate);
        }
        let month = adjusted_remainder(j_cdate.month as i64, 12) as u8;
        let year = j_cdate.year;
        let day = j_cdate.day;
        let month1 = adjusted_remainder(month as i64 + 1, 12) as u8;
        let year1 = if month1 != 1 {
            year
        } else if year != -1 {
            year + 1
        } else {
            1
        };
        let month_r = RomanMonth::from_u8(month).unwrap();
        let month1_r = RomanMonth::from_u8(month1).unwrap();
        let kalends1 = Roman {
            year: year1,
            month: month1_r,
            event: RomanMonthlyEvent::Kalends,
            count: 1,
            leap: false,
        }.to_fixed();
        let r = if day == 1 {
            Roman {
                year,
                month: month_r,
                event: RomanMonthlyEvent::Kalends,
                count: 1,
                leap: false,
            }
        } else if day <= month_r.nones_of_month() {
            Roman {
                year,
                month: month_r,
                event: RomanMonthlyEvent::Nones,
                count: month_r.nones_of_month() - day + 1,
                leap: false,
            }
        } else if day <= month_r.ides_of_month() {
            Roman {
                year,
                month: month_r,
                event: RomanMonthlyEvent::Ides,
                count: month_r.ides_of_month() - day + 1,
                leap: false,
            }
        } else if month != 2 || !Julian::is_leap(year) {
            Roman {
                year: year1,
                month: month1_r,
                event: RomanMonthlyEvent::Kalends,
                count: ((kalends1 - date) + 1) as u8,
                leap: false,
            }
        } else if day < 25 {
            Roman {
                year,
                month: RomanMonth::March,
                event: RomanMonthlyEvent::Kalends,
                count: 30 - day,
                leap: false,
            }
        } else {
            Roman {
                year,
                month: RomanMonth::March,
                event: RomanMonthlyEvent::Kalends,
                count: 31 - day,
                leap: day == 25,
            }
        };
        proof {
            let v = roman_from_fixed(date as int);
            assert(r@ == v);
            let m = choose|m: RomanMonth| gregorian_month_number(m) == v.1;
            let e = choose|e: RomanMonthlyEvent| roman_monthly_event_number(e) == v.2;
            assert(gregorian_month_number(r.month) == v.1);
            assert(roman_monthly_event_number(r.event) == v.2);
            lemma_numbers_name_values(m, r.month, e, r.event);
        }
        r
    }
}

/// Months and events are told apart by their numbers.
proof fn lemma_numbers_name_values(
    m1: RomanMonth,
    m2: RomanMonth,
    e1: RomanMonthlyEvent,
    e2: RomanMonthlyEvent,
)
    ensures
        gregorian_month_number(m1) == gregorian_month_number(m2) ==> m1 == m2,
        roman_monthly_event_number(e1) == roman_monthly_event_number(e2) ==> e1 == e2,
{
}

/// Naming a day count as a Roman date and converting the name back gives the same day count.
pub proof fn law_roman_fixed_roundtrip(date: int)
    requires
        fixed_in_bounds(date),
    ensures
        roman_fixed(roman_from_fixed(date)) == date,
{
    law_julian_fixed_roundtrip(date);
    let c = julian_from_fixed(date);
    lemma_julian_next_month_start(c);
    let month = c.month as int;
    let day = c.day as int;
    let start = CommonDate { year: c.year, month: c.month, day: 1 };
    assert(julian_fixed(start) == date - day + 1);
    let v = roman_from_fixed(date);
    let ev = CommonDate { year: v.0 as i32, month: v.1 as u8, day: event_day(v.1, v.2) as u8 };
    if day <= ides_spec(month) {
        assert(julian_fixed(ev) == julian_fixed(start) + event_day(v.1, v.2) - 1);
    } else if month == 2 && julian_leap(c.year as int) {
        assert(julian_fixed(ev) == julian_fixed(start) + 29);
    }
}

/// `roman_before` is transitive.
proof fn lemma_roman_before_transitive(
    a: (int, int, int, int, bool),
    b: (int, int, int, int, bool),
    c: (int, int, int, int, bool),
)
    requires
        roman_before(a, b),
        roman_before(b, c),
    ensures
        roman_before(a, c),
{
}

/// The Roman name of a day comes before the name of the next day.
proof fn lemma_roman_next_day(date: int)
    requires
        fixed_in_bounds(date),
        fixed_in_bounds(date + 1),
    ensures
        roman_before(roman_from_fixed(date), roman_from_fixed(date + 1)),
{
    law_julian_fixed_roundtrip(date);
    let c = julian_from_fixed(date);
    lemma_julian_next_month_start(c);
    let leap = julian_leap(c.year as int);
    let len = solar_month_length(leap, c.month as int);
    if (c.day as int) < len {
        let c1 = CommonDate { year: c.year, month: c.month, day: (c.day + 1) as u8 };
        assert(julian_error(c1) is None);
        assert(julian_fixed(c1) == date + 1);
        lemma_julian_from_fixed_unique(c1, date + 1);
    } else {
        let m1: int = if c.month == 12 {
            1
        } else {
            c.month + 1
        };
        let y1: int = if c.month == 12 {
            julian_next_year(c.year as int)
        } else {
            c.year as int
        };
        let k = CommonDate { year: y1 as i32, month: m1 as u8, day: 1 };
        lemma_julian_from_fixed_unique(k, date + 1);
    }
}

/// The Roman names of days follow the order of time: for two days within the supported
/// range, comparing their Roman dates gives what comparing their day counts gives.
pub proof fn law_roman_order(r1: Roman, r2: Roman, f1: int, f2: int)
    requires
        fixed_in_bounds(f1),
        fixed_in_bounds(f2),
        r1@ == roman_from_fixed(f1),
        r2@ == roman_from_fixed(f2),
    ensures
        f1 < f2 ==> PartialOrdSpec::partial_cmp_spec(&r1, &r2) == Some(Ordering::Less),
        f1 == f2 ==> PartialOrdSpec::partial_cmp_spec(&r1, &r2) == Some(Ordering::Equal),
        f1 > f2 ==> PartialOrdSpec::partial_cmp_spec(&r1, &r2) == Some(Ordering::Greater),
{
    lemma_numbers_name_values(r1.month, r2.month, r1.event, r2.event);
    if f1 < f2 {
        lemma_roman_names_ordered(f1, f2);
    } else if f2 < f1 {
        lemma_roman_names_ordered(f2, f1);
    }
}

/// A day's Roman name comes before the names of all later days.
proof fn lemma_roman_names_ordered(f1: int, f2: int)
    requires
        fixed_in_bounds(f1),
        fixed_in_bounds(f2),
        f1 < f2,
    ensures
        roman_before(roman_from_fixed(f1), roman_from_fixed(f2)),
        roman_from_fixed(f1) != roman_from_fixed(f2),
        !roman_before(roman_from_fixed(f2), roman_from_fixed(f1)),
    decreases f2 - f1,
{
    lemma_roman_next_day(f1);
    if f1 + 1 < f2 {
        lemma_roman_names_ordered(f1 + 1, f2);
        lemma_roman_before_transitive(
            roman_from_fixed(f1),
            roman_from_fixed(f1 + 1),
            roman_from_fixed(f2),
        );
    }
}

impl Quarter for Roman {
    open spec fn quarter_spec(self) -> int {
        (self@.1 - 1) / 3 + 1
    }

    fn quarter(self) -> (r: u8) {
        ((self.month().to_u8() - 1) / 3) + 1
    }
}

impl PartialOrd for Roman {
    fn partial_cmp(&self, other: &Self) -> (r: Option<Ordering>) {
        if self == other {
            Some(Ordering::Equal)
        } else if self.year != other.year {
            if self.year < other.year {
                Some(Ordering::Less)
            } else {
                Some(Ordering::Greater)
            }
        } else if self.month != other.month {
            if self.month.to_u8() < other.month.to_u8() {
                Some(Ordering::Less)
            } else {
                Some(Ordering::Greater)
            }
        } else if self.event != other.event {
            if self.event.to_u8() < other.event.to_u8() {
                Some(Ordering::Less)
            } else {
                Some(Ordering::Greater)
            }
        } else if self.count != other.count {
            if other.count < self.count {
                Some(Ordering::Less)
            } else {
                Some(Ordering::Greater)
            }
        } else if !self.leap && other.leap {
            Some(Ordering::Less)
        } else {
            Some(Ordering::Greater)
        }
    }
}

impl PartialOrdSpecImpl for Roman {
    open spec fn obeys_partial_cmp_spec() -> bool {
        true
    }

    open spec fn partial_cmp_spec(&self, other: &Self) -> Option<Ordering> {
        if *self == *other {
            Some(Ordering::Equal)
        } else if roman_before(self@, other@) {
            Some(Ordering::Less)
        } else {
            Some(Ordering::Greater)
        }
    }
}

/// A date's quarter holds its month: January to March (the first three months) in the
/// first, the next three in the second, then the third, and the last three in the fourth.
pub proof fn law_roman_quarter(x: Roman)
    ensures
        month_in_quarter(x@.1, x.quarter_spec()),
{
}

} // verus!
