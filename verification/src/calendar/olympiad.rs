use crate::calendar::julian::julian_next_year;
use crate::common::math::div_floor;
use crate::common::math::modulus;
use crate::common::math::adjusted_remainder_spec;
use vstd::prelude::*;

verus! {

/// The Julian year of the first Olympiad.
pub const OLYMPIAD_START: i32 = -776;

/// The number of years from the first year of the first Olympiad to a Julian year, which
/// has no year 0.
pub open spec fn olympiad_years(j_year: int) -> int {
    j_year - OLYMPIAD_START - (if j_year < 0 {
        0int
    } else {
        1int
    })
}

/// The Olympiad (cycle of four years) and year within it of a Julian year.
pub open spec fn olympiad_of_julian(j_year: int) -> (int, int) {
    (olympiad_years(j_year) / 4 + 1, olympiad_years(j_year) % 4 + 1)
}

/// The Julian year of an Olympiad and year within it.
pub open spec fn julian_of_olympiad(cycle: int, year: int) -> int {
    let years = OLYMPIAD_START + 4 * (cycle - 1) + year - 1;
    if years < 0 {
        years
    } else {
        years + 1
    }
}

/// Converting a Julian year to its Olympiad and back gives the same year.
pub proof fn law_olympiad_roundtrip(j_year: int)
    requires
        j_year != 0,
    ensures
        julian_of_olympiad(olympiad_of_julian(j_year).0, olympiad_of_julian(j_year).1) == j_year,
        1 <= olympiad_of_julian(j_year).1 <= 4,
{
    crate::calendar::arith::lemma_div_mod_parts(olympiad_years(j_year), 4);
}

/// The year after a Julian year is the next year of the same Olympiad, or the first year
/// of the next one; 1 AD follows 1 BC.
pub proof fn law_olympiad_next_year(j_year: int)
    requires
        j_year != 0,
    ensures
        ({
            let o0 = olympiad_of_julian(j_year);
            let o1 = olympiad_of_julian(julian_next_year(j_year));
            &&& o1.1 == adjusted_remainder_spec(o0.1 + 1, 4)
            &&& o1.1 == 1 ==> o1.0 == o0.0 + 1
            &&& o1.1 != 1 ==> o1.0 == o0.0
        }),
{
    let n = olympiad_years(j_year);
    assert(olympiad_years(julian_next_year(j_year)) == n + 1);
    crate::calendar::arith::lemma_div_mod_parts(n, 4);
    crate::calendar::arith::lemma_div_mod_parts(n + 1, 4);
    crate::calendar::gregorian::lemma_div_step(n, 4);
}

/// Olympiad 1, year 1 is 776 BC (Julian year -776), and each later year is one more year
/// of the count, four to an Olympiad, with 1 AD following 1 BC: a Julian year `e` years after
/// 776 BC is year `e % 4 + 1` of Olympiad `e / 4 + 1`, and back.
pub proof fn law_olympiad_count(j_year: int, cycle: int, year: int)
    requires
        j_year != 0,
        1 <= year <= 4,
    ensures
        ({
            let e = if j_year < 0 {
                j_year + 776
            } else {
                j_year + 775
            };
            let o = olympiad_of_julian(j_year);
            &&& 1 <= o.1 <= 4
            &&& 4 * (o.0 - 1) + (o.1 - 1) == e
        }),
        ({
            let j = julian_of_olympiad(cycle, year);
            &&& j != 0
            &&& (if j < 0 {
                j + 776
            } else {
                j + 775
            }) == 4 * (cycle - 1) + (year - 1)
        }),
        olympiad_of_julian(-776) == (1int, 1int),
        julian_of_olympiad(1, 1) == -776,
        olympiad_of_julian(1) == (195int, 1int),
{
    crate::calendar::arith::lemma_div_mod_parts(olympiad_years(j_year), 4);
    crate::calendar::arith::lemma_div_mod_parts(olympiad_years(1), 4);
}

/// Represents a Julian year grouped by Olympiad: a cycle of four years and a year within
/// it. There is no year 0.
#[derive(Debug, Clone, Copy, PartialEq, Eq, Structural)]
pub struct Olympiad {
    cycle: i32,
    year: u8,
}

impl View for Olympiad {
    type V = (int, int);

    closed spec fn view(&self) -> (int, int) {
        (self.cycle as int, self.year as int)
    }
}

impl Olympiad {
    #[verifier::type_invariant]
    spec fn valid(self) -> bool {
        &&& 1 <= self.year <= 4
        &&& i32::MIN <= julian_of_olympiad(self.cycle as int, self.year as int) <= i32::MAX
    }

    /// The Julian year, which is never 0.
    pub fn to_julian_year(self) -> (r: i32)
        ensures
            r == julian_of_olympiad(self@.0, self@.1),
            r != 0,
    {
        proof {
            use_type_invariant(&self);
        }
        let years = OLYMPIAD_START as i64 + 4 * (self.cycle as i64 - 1) + (self.year as i64) - 1;
        let result = if years < 0 {
            years
        } else {
            years + 1
        };
        result as i32
    }

    /// The Olympiad of a Julian year, which must not be 0.
    pub fn from_julian_year(j: i32) -> (r: Self)
        requires
            j != 0,
        ensures
            r@ == olympiad_of_julian(j as int),
    {
        let j_year = j as i64;
        let years = j_year - OLYMPIAD_START as i64 - (if j_year < 0 {
            0
        } else {
            1
        });
        proof {
            law_olympiad_roundtrip(j as int);
            crate::calendar::arith::lemma_div_mod_parts(years as int, 4);
        }
        Olympiad { cycle: (div_floor(years, 4) + 1) as i32, year: (modulus(years, 4) as u8 + 1) }
    }

    /// The number of the Olympiad.
    pub fn cycle(self) -> (r: i32)
        ensures
            r == self@.0,
    {
        self.cycle
    }

    /// The year within the Olympiad, from 1 to 4.
    pub fn year(self) -> (r: u8)
        ensures
            r == self@.1,
            1 <= r <= 4,
    {
        proof {
            use_type_invariant(&self);
        }
        self.year
    }
}

} // verus!
