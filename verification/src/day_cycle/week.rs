use crate::common::math::modulus;
use crate::day_count::fixed::fixed_in_bounds;
use crate::day_count::fixed::FromFixed;
use crate::day_cycle::prelude::BoundedCycle;
use crate::day_cycle::prelude::OnOrBefore;
use vstd::prelude::*;

verus! {

/// A day of the common seven-day week.
#[derive(Debug, Clone, Copy, PartialEq, Eq, PartialOrd, Ord, Hash, Structural)]
pub enum Weekday {
    Sunday,
    Monday,
    Tuesday,
    Wednesday,
    Thursday,
    Friday,
    Saturday,
}

/// The number of a day of the week: Sunday is 0 and Saturday is 6.
pub open spec fn weekday_number(w: Weekday) -> int {
    match w {
        Weekday::Sunday => 0,
        Weekday::Monday => 1,
        Weekday::Tuesday => 2,
        Weekday::Wednesday => 3,
        Weekday::Thursday => 4,
        Weekday::Friday => 5,
        Weekday::Saturday => 6,
    }
}

/// The day of the week with a given number from 0 to 6.
pub open spec fn weekday_of_number(n: int) -> Weekday {
    if n == 0 {
        Weekday::Sunday
    } else if n == 1 {
        Weekday::Monday
    } else if n == 2 {
        Weekday::Tuesday
    } else if n == 3 {
        Weekday::Wednesday
    } else if n == 4 {
        Weekday::Thursday
    } else if n == 5 {
        Weekday::Friday
    } else {
        Weekday::Saturday
    }
}

impl Weekday {
    /// The number of the day: Sunday is 0 and Saturday is 6.
    pub fn to_u8(self) -> (r: u8)
        ensures
            r == weekday_number(self),
    {
        match self {
            Weekday::Sunday => 0,
            Weekday::Monday => 1,
            Weekday::Tuesday => 2,
            Weekday::Wednesday => 3,
            Weekday::Thursday => 4,
            Weekday::Friday => 5,
            Weekday::Saturday => 6,
        }
    }

    /// The day with a given number, if there is one.
    pub fn from_i64(n: i64) -> (r: Option<Weekday>)
        ensures
            0 <= n <= 6 ==> r == Some(weekday_of_number(n as int)),
            !(0 <= n <= 6) ==> r is None,
    {
        if n == 0 {
            Some(Weekday::Sunday)
        } else if n == 1 {
            Some(Weekday::Monday)
        } else if n == 2 {
            Some(Weekday::Tuesday)
        } else if n == 3 {
            Some(Weekday::Wednesday)
        } else if n == 4 {
            Some(Weekday::Thursday)
        } else if n == 5 {
            Some(Weekday::Friday)
        } else if n == 6 {
            Some(Weekday::Saturday)
        } else {
            None
        }
    }
}

impl BoundedCycle<7, 0> for Weekday {
    open spec fn cycle_position(self) -> int {
        weekday_number(self)
    }

    open spec fn at_position(p: int) -> Self {
        weekday_of_number(p % 7)
    }

    fn from_unbounded(x: i64) -> (r: Self) {
        let m = modulus(x, 7);
        Weekday::from_i64(m).unwrap()
    }

    fn to_unbounded(&self) -> (r: i64) {
        self.to_u8() as i64
    }
}

impl FromFixed for Weekday {
    open spec fn from_fixed_spec(date: int) -> Self {
        weekday_of_number(date % 7)
    }

    fn from_fixed(date: i64) -> (r: Self) {
        Weekday::from_unbounded(date)
    }
}

impl OnOrBefore<7, 0> for Weekday {
    open spec fn on_or_before_spec(self, date: int) -> int {
        date - (date - weekday_number(self)) % 7
    }

    fn raw_on_or_before(self, date: i64) -> (r: i64) {
        let k = self.to_unbounded();
        let w = Weekday::from_unbounded(date - k);
        proof {
            vstd::arithmetic::div_mod::lemma_mod_bound(date - k, 7);
        }
        date - w.to_unbounded()
    }
}

/// The day found by `on_or_before` is that day of the week, within a week before the given day.
pub proof fn law_weekday_on_or_before(w: Weekday, date: int)
    ensures
        Weekday::from_fixed_spec(w.on_or_before_spec(date)) == w,
        date - 7 < w.on_or_before_spec(date) <= date,
{
    let k = weekday_number(w);
    crate::calendar::arith::lemma_div_mod_parts(date - k, 7);
    let r = w.on_or_before_spec(date);
    crate::calendar::arith::lemma_div_in_range(r, 7, (date - k) / 7);
}

/// The seven days from a Sunday are Sunday, Monday and so on to Saturday.
pub proof fn law_weekday_sequence(date: int, k: int)
    requires
        0 <= k < 7,
    ensures
        Weekday::from_fixed_spec(Weekday::Sunday.on_or_before_spec(date) + k) == weekday_of_number(
            k,
        ),
{
    let d0 = Weekday::Sunday.on_or_before_spec(date);
    crate::calendar::arith::lemma_div_mod_parts(date, 7);
    crate::calendar::arith::lemma_div_in_range(d0 + k, 7, date / 7);
}

/// Moving a day by whole weeks moves the day of the week found on or before it by the
/// same amount.
pub proof fn law_weekday_on_or_before_shift(w: Weekday, date: int, k: int)
    ensures
        w.on_or_before_spec(date + 7 * k) == w.on_or_before_spec(date) + 7 * k,
{
    let n = weekday_number(w);
    crate::calendar::arith::lemma_div_mod_parts(date - n, 7);
    crate::calendar::arith::lemma_div_in_range(date - n + 7 * k, 7, (date - n) / 7 + k);
}

/// January 1 of AD 1 in the Gregorian calendar (day 1) was a Monday, and each next day is
/// the next day of the week, Saturday being followed by Sunday.
pub proof fn law_weekday_of_day(date: int)
    ensures
        Weekday::from_fixed_spec(1) == Weekday::Monday,
        Weekday::from_fixed_spec(0) == Weekday::Sunday,
        weekday_number(Weekday::from_fixed_spec(date + 1)) == (weekday_number(
            Weekday::from_fixed_spec(date),
        ) + 1) % 7,
{
    crate::calendar::arith::lemma_div_mod_parts(date, 7);
    crate::calendar::arith::lemma_div_mod_parts(date + 1, 7);
    if date % 7 == 6 {
        crate::calendar::arith::lemma_div_in_range(date + 1, 7, date / 7 + 1);
    } else {
        crate::calendar::arith::lemma_div_in_range(date + 1, 7, date / 7);
    }
}

} // verus!
