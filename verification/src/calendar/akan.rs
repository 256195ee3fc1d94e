use crate::calendar::arith::lemma_div_in_range;
use crate::calendar::arith::lemma_div_mod_parts;
use crate::common::math::interval_modulus;
use crate::common::math::interval_modulus_spec;
use crate::common::math::modulus;
use crate::day_count::fixed::day_count_computable;
use crate::day_count::fixed::Epoch;
use vstd::prelude::*;
use vstd::std_specs::convert::FromSpecImpl;

verus! {

/// The first part of the name of a day of the Akan cycle, numbered from a day count
/// taken modulo 6.
#[derive(Debug, Clone, Copy, PartialEq, Eq, Structural)]
pub enum AkanPrefix {
    Nwona,
    Nkyi,
    Kuru,
    Kwa,
    Mono,
    Fo,
}

/// The prefix for a remainder from 0 to 5.
pub open spec fn prefix_of_remainder(m: int) -> AkanPrefix {
    if m == 0 {
        AkanPrefix::Nwona
    } else if m == 1 {
        AkanPrefix::Nkyi
    } else if m == 2 {
        AkanPrefix::Kuru
    } else if m == 3 {
        AkanPrefix::Kwa
    } else if m == 4 {
        AkanPrefix::Mono
    } else {
        AkanPrefix::Fo
    }
}

/// The number of a prefix, from 1 to 6.
pub open spec fn prefix_number(p: AkanPrefix) -> int {
    match p {
        AkanPrefix::Nwona => 1,
        AkanPrefix::Nkyi => 2,
        AkanPrefix::Kuru => 3,
        AkanPrefix::Kwa => 4,
        AkanPrefix::Mono => 5,
        AkanPrefix::Fo => 6,
    }
}

impl From<i64> for AkanPrefix {
    fn from(n: i64) -> (r: AkanPrefix) {
        let m = modulus(n, 6);
        match m {
            0 => AkanPrefix::Nwona,
            1 => AkanPrefix::Nkyi,
            2 => AkanPrefix::Kuru,
            3 => AkanPrefix::Kwa,
            4 => AkanPrefix::Mono,
            _ => AkanPrefix::Fo,
        }
    }
}

impl FromSpecImpl<i64> for AkanPrefix {
    open spec fn obeys_from_spec() -> bool {
        true
    }

    open spec fn from_spec(n: i64) -> AkanPrefix {
        prefix_of_remainder(n as int % 6)
    }
}

/// The second part of the name of a day of the Akan cycle, numbered from a day count
/// taken modulo 7.
#[derive(Debug, Clone, Copy, PartialEq, Eq, Structural)]
pub enum AkanStem {
    Wukuo,
    Yaw,
    Fie,
    Memene,
    Kwasi,
    Dwo,
    Bene,
}

/// The stem for a remainder from 0 to 6.
pub open spec fn stem_of_remainder(m: int) -> AkanStem {
    if m == 0 {
        AkanStem::Wukuo
    } else if m == 1 {
        AkanStem::Yaw
    } else if m == 2 {
        AkanStem::Fie
    } else if m == 3 {
        AkanStem::Memene
    } else if m == 4 {
        AkanStem::Kwasi
    } else if m == 5 {
        AkanStem::Dwo
    } else {
        AkanStem::Bene
    }
}

/// The number of a stem, from 1 to 7.
pub open spec fn stem_number(s: AkanStem) -> int {
    match s {
        AkanStem::Wukuo => 1,
        AkanStem::Yaw => 2,
        AkanStem::Fie => 3,
        AkanStem::Memene => 4,
        AkanStem::Kwasi => 5,
        AkanStem::Dwo => 6,
        AkanStem::Bene => 7,
    }
}

impl From<i64> for AkanStem {
    fn from(n: i64) -> (r: AkanStem) {
        let m = modulus(n, 7);
        match m {
            0 => AkanStem::Wukuo,
            1 => AkanStem::Yaw,
            2 => AkanStem::Fie,
            3 => AkanStem::Memene,
            4 => AkanStem::Kwasi,
            5 => AkanStem::Dwo,
            _ => AkanStem::Bene,
        }
    }
}

impl FromSpecImpl<i64> for AkanStem {
    open spec fn obeys_from_spec() -> bool {
        true
    }

    open spec fn from_spec(n: i64) -> AkanStem {
        stem_of_remainder(n as int % 7)
    }
}

/// The day count where the Akan cycle starts.
pub const AKAN_CYCLE_START: i64 = 37;

/// The number of days from one name to the next occurrence of another, from 1 to 42.
pub open spec fn akan_day_difference(p1: int, s1: int, p2: int, s2: int) -> int {
    let prefix_diff = p2 - p1;
    let stem_diff = s2 - s1;
    interval_modulus_spec(prefix_diff + 36 * (stem_diff - prefix_diff), 1, 42)
}

/// A day of the Akan 42-day cycle: a prefix from a six-day cycle and a stem from a
/// seven-day cycle.
#[derive(Debug, Clone, Copy, PartialEq, Eq, Structural)]
pub struct AkanDay {
    prefix: AkanPrefix,
    stem: AkanStem,
}

impl AkanDay {
    /// Builds a day from its stem and prefix.
    pub fn new(stem: AkanStem, prefix: AkanPrefix) -> (r: AkanDay)
        ensures
            r.get_stem_spec() == stem,
            r.get_prefix_spec() == prefix,
    {
        AkanDay { stem, prefix }
    }

    /// The name of the `n`-th day of the cycle.
    pub fn day_name(n: i64) -> (r: AkanDay)
        ensures
            r.get_stem_spec() == stem_of_remainder(n as int % 7),
            r.get_prefix_spec() == prefix_of_remainder(n as int % 6),
    {
        AkanDay::new(AkanStem::from(n), AkanPrefix::from(n))
    }

    /// The number of days from this day to the next day named `other`, from 1 to 42.
    pub fn name_difference(self, other: Self) -> (r: i16)
        ensures
            r == akan_day_difference(
                prefix_number(self.get_prefix_spec()),
                stem_number(self.get_stem_spec()),
                prefix_number(other.get_prefix_spec()),
                stem_number(other.get_stem_spec()),
            ),
            1 <= r <= 42,
    {
        let prefix1 = self.prefix.number();
        let stem1 = self.stem.number();
        let prefix2 = other.prefix.number();
        let stem2 = other.stem.number();
        let prefix_diff = prefix2 - prefix1;
        let stem_diff = stem2 - stem1;
        let x = (prefix_diff + 36 * (stem_diff - prefix_diff)) as i64;
        proof {
            crate::common::math::lemma_modulus_bounds(x - 1, 41);
        }
        interval_modulus(x, 1, 42) as i16
    }

    /// The stem of the day.
    pub closed spec fn get_stem_spec(self) -> AkanStem {
        self.stem
    }

    /// The prefix of the day.
    pub closed spec fn get_prefix_spec(self) -> AkanPrefix {
        self.prefix
    }

    /// The stem of the day.
    pub fn get_stem(self) -> (r: AkanStem)
        ensures
            r == self.get_stem_spec(),
    {
        self.stem
    }

    /// The prefix of the day.
    pub fn get_prefix(self) -> (r: AkanPrefix)
        ensures
            r == self.get_prefix_spec(),
    {
        self.prefix
    }

    /// The name of the day with a given day count.
    pub fn from_fixed(date: i64) -> (r: AkanDay)
        requires
            day_count_computable(date as int),
        ensures
            r.get_stem_spec() == stem_of_remainder((date - AKAN_CYCLE_START) % 7),
            r.get_prefix_spec() == prefix_of_remainder((date - AKAN_CYCLE_START) % 6),
    {
        AkanDay::day_name(date - AkanDay::epoch())
    }

    /// The last day on or before a given day count that has this name.
    pub fn day_name_on_or_before(self, date: i64) -> (r: i64)
        requires
            day_count_computable(date as int),
        ensures
            r == interval_modulus_spec(
                akan_day_difference(
                    prefix_number(AkanPrefix::Fo),
                    stem_number(AkanStem::Dwo),
                    prefix_number(self.get_prefix_spec()),
                    stem_number(self.get_stem_spec()),
                ),
                date as int,
                date - 42,
            ),
    {
        let zero = AkanDay::from_fixed(0);
        proof {
            assert(zero.prefix == AkanPrefix::Fo && zero.stem == AkanStem::Dwo);
        }
        let diff = zero.name_difference(self) as i64;
        proof {
            crate::common::math::lemma_modulus_bounds(diff - date, -42);
        }
        interval_modulus(diff, date, date - 42)
    }
}

impl AkanPrefix {
    /// The number of the prefix, from 1 to 6.
    pub fn number(self) -> (r: i16)
        ensures
            r == prefix_number(self),
    {
        match self {
            AkanPrefix::Nwona => 1,
            AkanPrefix::Nkyi => 2,
            AkanPrefix::Kuru => 3,
            AkanPrefix::Kwa => 4,
            AkanPrefix::Mono => 5,
            AkanPrefix::Fo => 6,
        }
    }
}

impl AkanStem {
    /// The number of the stem, from 1 to 7.
    pub fn number(self) -> (r: i16)
        ensures
            r == stem_number(self),
    {
        match self {
            AkanStem::Wukuo => 1,
            AkanStem::Yaw => 2,
            AkanStem::Fie => 3,
            AkanStem::Memene => 4,
            AkanStem::Kwasi => 5,
            AkanStem::Dwo => 6,
            AkanStem::Bene => 7,
        }
    }
}

impl Epoch for AkanDay {
    open spec fn epoch_spec() -> int {
        37
    }

    fn epoch() -> (r: i64) {
        assert(Self::epoch_spec() == 37);
        AKAN_CYCLE_START
    }
}

/// The name of a day repeats every 42 days, and no sooner.
pub proof fn law_akan_day_repeats(n: int)
    ensures
        prefix_of_remainder((n + 42) % 6) == prefix_of_remainder(n % 6),
        stem_of_remainder((n + 42) % 7) == stem_of_remainder(n % 7),
        prefix_of_remainder((n + 1) % 6) != prefix_of_remainder(n % 6),
{
    lemma_div_mod_parts(n, 6);
    lemma_div_mod_parts(n, 7);
    lemma_div_in_range(n + 42, 6, n / 6 + 7);
    lemma_div_in_range(n + 42, 7, n / 7 + 6);
    lemma_div_mod_parts(n + 1, 6);
}

} // verus!
