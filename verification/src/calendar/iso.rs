use crate::calendar::arith::lemma_div_in_range;
use crate::calendar::arith::lemma_div_mod_parts;
use crate::calendar::gregorian::gregorian_leap;
use crate::calendar::gregorian::gregorian_prior_elapsed;
use crate::calendar::gregorian::is_leap_wide;
use crate::calendar::gregorian::lemma_gregorian_prior_step;
use crate::calendar::gregorian::lemma_gregorian_year_bounds;
use crate::calendar::gregorian::prior_elapsed_days_wide;
use crate::calendar::gregorian::solar_year_length;
use crate::calendar::gregorian::Gregorian;
use crate::calendar::prelude::nth_kday_of;
use crate::calendar::prelude::HasLeapYears;
use crate::calendar::prelude::Quarter;
use crate::calendar::prelude::ToFromCommonDate;
use crate::calendar::prelude::ToFromOrdinalDate;
use crate::common::error::CalendarError;
use crate::common::math::adjusted_remainder;
use crate::common::math::div_floor;
use crate::common::math::modulus;
use crate::day_count::fixed::fixed_in_bounds;
use crate::day_count::fixed::Epoch;
use crate::day_count::fixed::FromFixed;
use crate::day_count::fixed::ToFixed;
use crate::day_cycle::prelude::BoundedCycle;
use crate::day_cycle::week::weekday_number;
use crate::day_cycle::week::weekday_of_number;
use crate::day_cycle::week::Weekday;
use std::cmp::Ordering;
use crate::day_count::fixed::CalculatedBounds;
use crate::calendar::gregorian::gregorian_fixed;
use crate::common::date::CommonDate;
use vstd::prelude::*;
use vstd::std_specs::cmp::PartialOrdSpecImpl;

verus! {

/// The ISO number of a day of the week: Monday is 1 and Sunday is 7.
pub open spec fn iso_day_number(w: Weekday) -> int {
    if weekday_number(w) == 0 {
        7
    } else {
        weekday_number(w)
    }
}

/// The first day of an ISO year: the Monday of the week that holds January 4.
pub open spec fn iso_new_year(year: int) -> int {
    let jan4 = gregorian_prior_elapsed(year) + 4;
    jan4 - (jan4 - 1) % 7
}

/// An ISO year has 53 weeks when the Gregorian year starts or ends on a Thursday.
pub open spec fn iso_leap(year: int) -> bool {
    let jan1 = gregorian_prior_elapsed(year) + 1;
    let dec31 = gregorian_prior_elapsed(year) + solar_year_length(gregorian_leap(year));
    jan1 % 7 == 4 || dec31 % 7 == 4
}

/// Whether a week exists in a year: weeks 1 to 52, and 53 in long years.
pub open spec fn iso_week_valid(year: int, week: int) -> bool {
    1 <= week <= 53 && (week == 53 ==> iso_leap(year))
}

/// The day count of an ISO week date given as year, week and day of the week.
pub open spec fn iso_fixed(v: (int, int, Weekday)) -> int {
    iso_new_year(v.0) + 7 * (v.1 - 1) + iso_day_number(v.2) - 1
}

/// The ISO year that holds a day.
pub open spec fn iso_year_of(date: int) -> int {
    choose|y: int| #[trigger] iso_new_year(y) <= date < iso_new_year(y + 1)
}

/// The ISO week date of a day count.
pub open spec fn iso_from_fixed(date: int) -> (int, int, Weekday) {
    let y = iso_year_of(date);
    (y, (date - iso_new_year(y)) / 7 + 1, weekday_of_number(date % 7))
}

/// The first day of an ISO year is a Monday within three days of January 1.
proof fn lemma_iso_new_year(year: int)
    ensures
        gregorian_prior_elapsed(year) - 2 <= iso_new_year(year) <= gregorian_prior_elapsed(year)
            + 4,
        iso_new_year(year) % 7 == 1,
{
    let jan4 = gregorian_prior_elapsed(year) + 4;
    lemma_div_mod_parts(jan4 - 1, 7);
    lemma_div_in_range(iso_new_year(year), 7, (jan4 - 1) / 7);
}

/// An ISO year has 52 weeks, or 53 when the Gregorian year starts or ends on a Thursday.
pub proof fn law_iso_year_length(year: int)
    ensures
        iso_new_year(year + 1) - iso_new_year(year) == (if iso_leap(year) {
            371int
        } else {
            364int
        }),
{
    let p = gregorian_prior_elapsed(year);
    let len = solar_year_length(gregorian_leap(year));
    lemma_gregorian_prior_step(year);
    lemma_div_mod_parts(p + 3, 7);
    lemma_div_mod_parts(p + len + 3, 7);
    lemma_div_mod_parts(p + 1, 7);
    lemma_div_mod_parts(p + len, 7);
    let r = (p + 3) % 7;
    if len == 365 {
        if r == 6 {
            lemma_div_in_range(p + len + 3, 7, (p + 3) / 7 + 53);
        } else {
            lemma_div_in_range(p + len + 3, 7, (p + 3) / 7 + 52);
        }
    } else {
        if r >= 5 {
            lemma_div_in_range(p + len + 3, 7, (p + 3) / 7 + 53);
        } else {
            lemma_div_in_range(p + len + 3, 7, (p + 3) / 7 + 52);
        }
    }
    lemma_div_in_range(p + 1, 7, (p + 3) / 7 - (if r < 2 { 1int } else { 0int }));
    lemma_div_in_range(p + len, 7, (p + len + 3) / 7 - (if (p + len + 3) % 7 < 3 { 1int } else { 0int }));
}

/// Later ISO years start later.
proof fn lemma_iso_new_year_monotone(a: int, b: int)
    requires
        a < b,
    ensures
        iso_new_year(a) + 364 <= iso_new_year(b),
    decreases b - a,
{
    law_iso_year_length(a);
    if a + 1 < b {
        lemma_iso_new_year_monotone(a + 1, b);
    }
}

/// At most one ISO year holds a day.
proof fn lemma_iso_year_unique(y1: int, y2: int, date: int)
    requires
        iso_new_year(y1) <= date < iso_new_year(y1 + 1),
        iso_new_year(y2) <= date < iso_new_year(y2 + 1),
    ensures
        y1 == y2,
{
    if y1 < y2 {
        if y1 + 1 < y2 {
            lemma_iso_new_year_monotone(y1 + 1, y2);
        }
    } else if y2 < y1 {
        if y2 + 1 < y1 {
            lemma_iso_new_year_monotone(y2 + 1, y1);
        }
    }
}

/// The ISO year of a day is its Gregorian year, or the year before or after it; the
/// Gregorian year of the day three days before is the ISO year or the year before it.
proof fn lemma_iso_year_near(gy: int, doy: int, date: int)
    requires
        1 <= doy <= solar_year_length(gregorian_leap(gy)),
        date == gregorian_prior_elapsed(gy) + doy,
    ensures
        ({
            let approx = if doy <= 3 {
                gy - 1
            } else {
                gy
            };
            iso_new_year(approx) <= date < iso_new_year(approx + 2)
        }),
{
    lemma_gregorian_prior_step(gy - 1);
    lemma_gregorian_prior_step(gy);
    lemma_gregorian_prior_step(gy + 1);
    lemma_iso_new_year(gy - 1);
    lemma_iso_new_year(gy);
    lemma_iso_new_year(gy + 1);
    lemma_iso_new_year(gy + 2);
}

/// Every day count within the supported range has an ISO week date, and converting it
/// back gives the same day count.
pub proof fn law_iso_fixed_roundtrip(date: int)
    requires
        fixed_in_bounds(date),
    ensures
        iso_week_valid(iso_from_fixed(date).0, iso_from_fixed(date).1),
        iso_fixed(iso_from_fixed(date)) == date,
        -50000001 <= iso_from_fixed(date).0 <= 50000001,
{
    crate::calendar::gregorian::law_gregorian_fixed_roundtrip(date);
    let g = crate::calendar::gregorian::gregorian_from_fixed(date);
    crate::calendar::gregorian::lemma_gregorian_fixed_in_year(g);
    let gy = g.year as int;
    let doy = date - gregorian_prior_elapsed(gy);
    lemma_iso_year_near(gy, doy, date);
    let approx = if doy <= 3 {
        gy - 1
    } else {
        gy
    };
    let y = if date >= iso_new_year(approx + 1) {
        approx + 1
    } else {
        approx
    };
    lemma_iso_year_unique(y, iso_year_of(date), date);
    law_iso_year_length(y);
    lemma_iso_new_year(y);
    lemma_div_mod_parts(date - iso_new_year(y), 7);
    lemma_div_mod_parts(date, 7);
    lemma_div_in_range(date, 7, iso_new_year(y) / 7 + (date - iso_new_year(y)) / 7 + (if (date
        - iso_new_year(y)) % 7 == 6 {
        1int
    } else {
        0int
    }));
    lemma_div_mod_parts(iso_new_year(y), 7);
}

/// Converting a valid ISO week date to its day count and back gives the same week date.
pub proof fn law_iso_date_roundtrip(v: (int, int, Weekday))
    requires
        iso_week_valid(v.0, v.1),
    ensures
        iso_from_fixed(iso_fixed(v)) == v,
{
    let date = iso_fixed(v);
    law_iso_year_length(v.0);
    lemma_iso_new_year(v.0);
    assert(iso_new_year(v.0) <= date < iso_new_year(v.0 + 1));
    lemma_iso_year_unique(v.0, iso_year_of(date), date);
    lemma_div_in_range(date - iso_new_year(v.0), 7, v.1 - 1);
    lemma_div_mod_parts(iso_new_year(v.0), 7);
    lemma_div_in_range(date, 7, iso_new_year(v.0) / 7 + v.1 - 1 + (if iso_day_number(v.2) == 7 {
        1int
    } else {
        0int
    }));
}

/// Represents a date in the ISO week calendar: a year, a week of the year and a day of the
/// week. Weeks start on Monday and week 1 holds January 4.
#[derive(Debug, Clone, Copy, PartialEq, Eq, Structural)]
pub struct ISO {
    year: i32,
    week: u8,
    day: Weekday,
}

impl View for ISO {
    type V = (int, int, Weekday);

    closed spec fn view(&self) -> (int, int, Weekday) {
        (self.year as int, self.week as int, self.day)
    }
}

impl ISO {
    #[verifier::type_invariant]
    spec fn valid(self) -> bool {
        iso_week_valid(self.year as int, self.week as int)
    }

    /// Builds an ISO week date, refusing weeks that the year does not have.
    pub fn try_new(year: i32, week: u8, day: Weekday) -> (r: Result<Self, CalendarError>)
        ensures
            iso_week_valid(year as int, week as int) ==> (r matches Ok(x) && x@ == (
                year as int,
                week as int,
                day,
            )),
            !iso_week_valid(year as int, week as int) ==> r == Err::<Self, CalendarError>(
                CalendarError::InvalidWeek,
            ),
    {
        if week < 1 || week > 53 || (week == 53 && !Self::is_leap(year)) {
            return Err(CalendarError::InvalidWeek);
        }
        Ok(ISO { year: year, week: week, day: day })
    }

    /// The ISO year.
    pub fn year(self) -> (r: i32)
        ensures
            r == self@.0,
    {
        self.year
    }

    /// The week of the year, from 1 to 53.
    pub fn week(self) -> (r: u8)
        ensures
            r == self@.1,
            iso_week_valid(self@.0, r as int),
    {
        proof {
            use_type_invariant(&self);
        }
        self.week
    }

    /// The day of the week.
    pub fn day(self) -> (r: Weekday)
        ensures
            r == self@.2,
    {
        self.day
    }

    /// The ISO number of the day of the week: Monday is 1 and Sunday is 7.
    pub fn day_num(self) -> (r: u8)
        ensures
            r == iso_day_number(self@.2),
    {
        adjusted_remainder(self.day.to_u8() as i64, 7) as u8
    }

    /// The first day of an ISO year: Monday of week 1.
    pub fn new_year(year: i32) -> (r: Self)
        ensures
            r@ == (year as int, 1int, Weekday::Monday),
    {
        let r = ISO::try_new(year, 1, Weekday::Monday);
        r.unwrap()
    }
}

impl Epoch for ISO {
    open spec fn epoch_spec() -> int {
        1
    }

    fn epoch() -> (r: i64) {
        let r = Gregorian::epoch();
        assert(Self::epoch_spec() == 1);
        r
    }
}

impl HasLeapYears for ISO {
    open spec fn leap_spec(year: int) -> bool {
        iso_leap(year)
    }

    fn is_leap(i_year: i32) -> (r: bool) {
        let start = Gregorian::try_year_start(i_year);
        assert(start is Ok);
        let jan1 = Weekday::from_unbounded(start.unwrap().to_fixed());
        let end = Gregorian::try_year_end(i_year);
        assert(end is Ok);
        let dec31 = Weekday::from_unbounded(end.unwrap().to_fixed());
        let r = jan1 == Weekday::Thursday || dec31 == Weekday::Thursday;
        proof {
            let p = gregorian_prior_elapsed(i_year as int);
            lemma_div_mod_parts(p + 1, 7);
            lemma_div_mod_parts(p + solar_year_length(gregorian_leap(i_year as int)), 7);
        }
        assert(Self::leap_spec(i_year as int) == iso_leap(i_year as int));
        r
    }
}

impl ToFixed for ISO {
    open spec fn fixed_spec(self) -> int {
        iso_fixed(self@)
    }

    fn to_fixed(self) -> (r: i64) {
        proof {
            use_type_invariant(&self);
        }
        // December 28 of the year before, computed in 64 bits so that every `i32` year has one.
        let prior_year = self.year as i64 - 1;
        let leap: i64 = if is_leap_wide(prior_year) {
            1
        } else {
            0
        };
        let dec28 = prior_elapsed_days_wide(prior_year) + 334 + leap + 28;
        let w = self.week as i16;
        let day_i = adjusted_remainder(self.day.to_u8() as i64, 7);
        let result = nth_kday_of(dec28, w, Weekday::Sunday) + day_i;
        proof {
            let p = gregorian_prior_elapsed(self.year as int);
            lemma_gregorian_prior_step(self.year as int - 1);
            lemma_div_mod_parts(p - 4, 7);
            lemma_div_mod_parts(p + 3, 7);
            lemma_div_in_range(p + 3, 7, (p - 4) / 7 + 1);
        }
        result
    }
}

impl FromFixed for ISO {
    closed spec fn from_fixed_spec(date: int) -> Self {
        let v = iso_from_fixed(date);
        ISO { year: v.0 as i32, week: v.1 as u8, day: v.2 }
    }

    fn from_fixed(fixed_date: i64) -> (r: Self)
        ensures
            r@ == iso_from_fixed(fixed_date as int),
    {
        let date = fixed_date;
        let g = Gregorian::ordinal_from_fixed(date);
        proof {
            lemma_gregorian_year_bounds(date as int, g.year as int);
            lemma_iso_year_near(g.year as int, g.day_of_year as int, date as int);
        }
        // The Gregorian year of the day three days before.
        let approx = if g.day_of_year <= 3 {
            g.year - 1
        } else {
            g.year
        };
        let next = ISO::new_year(approx + 1).to_fixed();
        let year = if date >= next {
            approx + 1
        } else {
            approx
        };
        let current = ISO::new_year(year).to_fixed();
        proof {
            lemma_iso_year_unique(year as int, iso_year_of(date as int), date as int);
            law_iso_year_length(year as int);
            lemma_div_mod_parts(date - current, 7);
            if (date - current) / 7 > 52 {
                lemma_div_in_range(date - current, 7, 52);
            }
        }
        let week = div_floor(date - current, 7) + 1;
        let day = Weekday::from_unbounded(date);
        let r = ISO::try_new(year, week as u8, day);
        proof {
            assert(r is Ok);
        }
        let r = r.unwrap();
        proof {
            assert(r == Self::from_fixed_spec(date as int));
        }
        r
    }
}

impl Quarter for ISO {
    open spec fn quarter_spec(self) -> int {
        (self@.1 - 1) / 14 + 1
    }

    fn quarter(self) -> (r: u8) {
        ((self.week() - 1) / 14) + 1
    }
}

impl PartialOrd for ISO {
    fn partial_cmp(&self, other: &Self) -> (r: Option<Ordering>) {
        if self == other {
            Some(Ordering::Equal)
        } else if self.year != other.year {
            if self.year < other.year {
                Some(Ordering::Less)
            } else {
                Some(Ordering::Greater)
            }
        } else if self.week != other.week {
            if self.week < other.week {
                Some(Ordering::Less)
            } else {
                Some(Ordering::Greater)
            }
        } else {
            let self_day = self.day_num();
            let other_day = other.day_num();
            if self_day < other_day {
                Some(Ordering::Less)
            } else if self_day == other_day {
                Some(Ordering::Equal)
            } else {
                Some(Ordering::Greater)
            }
        }
    }
}

impl PartialOrdSpecImpl for ISO {
    open spec fn obeys_partial_cmp_spec() -> bool {
        true
    }

    open spec fn partial_cmp_spec(&self, other: &Self) -> Option<Ordering> {
        let a = self@;
        let b = other@;
        if *self == *other {
            Some(Ordering::Equal)
        } else if a.0 < b.0 || (a.0 == b.0 && (a.1 < b.1 || (a.1 == b.1 && iso_day_number(a.2)
            < iso_day_number(b.2)))) {
            Some(Ordering::Less)
        } else if a.0 == b.0 && a.1 == b.1 && iso_day_number(a.2) == iso_day_number(b.2) {
            Some(Ordering::Equal)
        } else {
            Some(Ordering::Greater)
        }
    }
}


impl CalculatedBounds for ISO {
    open spec fn valid_date(self) -> bool {
        iso_week_valid(self@.0, self@.1)
    }

    proof fn lemma_from_fixed_keeps_day(date: int) {
        law_iso_fixed_roundtrip(date);
    }

    proof fn lemma_to_fixed_and_back(x: Self) {
        law_iso_date_roundtrip(x@);
    }
}

/// The ISO week of January 1 of a Gregorian year, from the day of the week it falls on
/// (0 for Sunday to 6 for Saturday): week 1 from Monday to Thursday; otherwise the last week
/// of the year before, which is week 53 after a Friday, or after a Saturday that follows a
/// Gregorian leap year, and week 52 otherwise.
pub open spec fn iso_week_of_new_year(year: int, n: int) -> int {
    if 1 <= n <= 4 {
        1
    } else if n == 5 {
        53
    } else if n == 6 {
        if gregorian_leap(year - 1) {
            53
        } else {
            52
        }
    } else {
        52
    }
}

/// January 1 is in week 1 of its ISO year when it falls on Monday to Thursday; otherwise it
/// is in the last week, 52 or 53, of the ISO year before.
#[verifier::spinoff_prover]
#[verifier::rlimit(50)]
pub proof fn law_iso_first_week(y: int)
    ensures
        ({
            let jan1 = gregorian_prior_elapsed(y) + 1;
            let n = jan1 % 7;
            let week = iso_week_of_new_year(y, n);
            &&& iso_from_fixed(jan1) == (
                if week == 1 {
                    y
                } else {
                    y - 1
                },
                week,
                weekday_of_number(n),
            )
            &&& (week == 53 ==> iso_leap(y - 1))
        }),
{
    let p = gregorian_prior_elapsed(y);
    let jan1 = p + 1;
    let n = jan1 % 7;
    lemma_div_mod_parts(jan1, 7);
    lemma_iso_new_year(y);
    lemma_iso_new_year(y - 1);
    law_iso_year_length(y - 1);
    law_iso_year_length(y);
    lemma_gregorian_prior_step(y - 1);
    let ny = iso_new_year(y);
    lemma_div_mod_parts(ny, 7);
    let diff = jan1 - ny;
    assert(-3 <= diff <= 3);
    let b = jan1 / 7;
    let a = ny / 7;
    assert(diff == 7 * (b - a) + n - 1);
    if 1 <= n <= 4 {
        assert(diff == n - 1);
        assert(iso_new_year(y) <= jan1 < iso_new_year(y + 1));
        lemma_iso_year_unique(y, iso_year_of(jan1), jan1);
        lemma_div_in_range(diff, 7, 0);
    } else {
        assert(diff == (if n == 5 {
            -3int
        } else if n == 6 {
            -2int
        } else {
            -1int
        }));
        let len = ny - iso_new_year(y - 1);
        assert(iso_new_year(y - 1) <= jan1 < iso_new_year(y - 1 + 1));
        lemma_iso_year_unique(y - 1, iso_year_of(jan1), jan1);
        let lp = gregorian_prior_elapsed(y - 1);
        lemma_div_mod_parts(lp + 1, 7);
        lemma_div_mod_parts(p, 7);
        if len == 371 {
            lemma_div_in_range(len + diff, 7, 52);
        } else {
            lemma_div_in_range(len + diff, 7, 51);
        }
        let glen = solar_year_length(gregorian_leap(y - 1));
        assert(p == lp + glen);
        assert(p % 7 == (if n == 0 { 6int } else { n - 1 }));
        if glen == 366 {
            lemma_div_in_range(lp + 1, 7, p / 7 - 52);
        } else {
            lemma_div_in_range(lp + 1, 7, p / 7 - 52);
        }
    }
}

/// January 4, 11, 18 and 25 and February 1, 8, 15 and 22 are in ISO weeks 1 to 8 of their
/// Gregorian year, whatever the year.
pub proof fn law_iso_fixed_week_numbers(y: int, k: int)
    requires
        0 <= k < 8,
    ensures
        iso_from_fixed(gregorian_prior_elapsed(y) + 4 + 7 * k).0 == y,
        iso_from_fixed(gregorian_prior_elapsed(y) + 4 + 7 * k).1 == k + 1,
{
    let jan4 = gregorian_prior_elapsed(y) + 4;
    let date = jan4 + 7 * k;
    lemma_div_mod_parts(jan4 - 1, 7);
    law_iso_year_length(y);
    let ny = iso_new_year(y);
    assert(ny <= date < iso_new_year(y + 1));
    lemma_iso_year_unique(y, iso_year_of(date), date);
    lemma_div_in_range(date - ny, 7, k);
}

/// An ISO year's quarters hold fourteen weeks each, the last one the rest: weeks 1 to 14 are
/// in the first quarter, 15 to 28 in the second, 29 to 42 in the third and 43 to 53 in the
/// fourth.
pub proof fn law_iso_quarter(x: ISO)
    ensures
        1 <= x@.1 <= 14 ==> x.quarter_spec() == 1,
        15 <= x@.1 <= 28 ==> x.quarter_spec() == 2,
        29 <= x@.1 <= 42 ==> x.quarter_spec() == 3,
        43 <= x@.1 <= 53 ==> x.quarter_spec() == 4,
{
}

/// The Monday of week 1 of ISO year 1 is January 1 of year 1 in the Gregorian calendar.
pub proof fn law_iso_epoch()
    ensures
        iso_fixed((1int, 1int, Weekday::Monday)) == gregorian_fixed(CommonDate { year: 1, month: 1, day: 1 }),
{
}

/// ISO numbers the days of the week from Monday, 1, to Sunday, 7.
pub proof fn law_iso_day_numbers()
    ensures
        iso_day_number(Weekday::Monday) == 1,
        iso_day_number(Weekday::Tuesday) == 2,
        iso_day_number(Weekday::Wednesday) == 3,
        iso_day_number(Weekday::Thursday) == 4,
        iso_day_number(Weekday::Friday) == 5,
        iso_day_number(Weekday::Saturday) == 6,
        iso_day_number(Weekday::Sunday) == 7,
{
}

/// The first week of an ISO year is the one that holds January 4: its Monday falls from
/// December 29 to January 4, and is a Monday.
pub proof fn law_iso_new_year_monday(year: int)
    ensures
        ({
            let jan1 = gregorian_prior_elapsed(year) + 1;
            let n = iso_new_year(year);
            &&& jan1 - 3 <= n <= jan1 + 3
            &&& Weekday::from_fixed_spec(n) == Weekday::Monday
        }),
{
    let jan4 = gregorian_prior_elapsed(year) + 4;
    crate::calendar::arith::lemma_div_mod_parts(jan4 - 1, 7);
    let n = iso_new_year(year);
    crate::calendar::arith::lemma_div_in_range(n, 7, (jan4 - 1) / 7);
}

} // verus!
