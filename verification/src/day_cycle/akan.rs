use crate::calendar::arith::lemma_div_in_range;
use crate::calendar::arith::lemma_div_mod_parts;
use crate::common::math::adjusted_remainder;
use crate::common::math::adjusted_remainder_spec;
use crate::common::math::interval_modulus;
use crate::common::math::modulus_spec;
use crate::day_count::fixed::Epoch;
use crate::day_count::fixed::FromFixed;
use crate::day_cycle::prelude::BoundedCycle;
use crate::day_cycle::prelude::OnOrBefore;
use vstd::prelude::*;

verus! {

/// The first part of the name of a day in the Akan 42-day cycle, from a six-day cycle.
#[derive(Debug, Clone, Copy, PartialEq, Eq, PartialOrd, Ord, Hash, Structural)]
pub enum AkanPrefix {
    Nwona,
    Nkyi,
    Kuru,
    Kwa,
    Mono,
    Fo,
}

/// The number of each value of `AkanPrefix`.
pub open spec fn akan_prefix_number(m: AkanPrefix) -> int {
    match m {
        AkanPrefix::Nwona => 1,
        AkanPrefix::Nkyi => 2,
        AkanPrefix::Kuru => 3,
        AkanPrefix::Kwa => 4,
        AkanPrefix::Mono => 5,
        AkanPrefix::Fo => 6,
    }
}

impl AkanPrefix {
    /// The number of the value.
    pub fn to_u8(self) -> (r: u8)
        ensures
            r == akan_prefix_number(self),
    {
        match self {
            AkanPrefix::Nwona => 1,
            AkanPrefix::Nkyi => 2,
            AkanPrefix::Kuru => 3,
            AkanPrefix::Kwa => 4,
            AkanPrefix::Mono => 5,
            AkanPrefix::Fo => 6,
        }
    }

    /// The value with the given number, if there is one.
    pub fn from_u8(n: u8) -> (r: Option<AkanPrefix>)
        ensures
            1 <= n <= 6 ==> (r matches Some(m) && akan_prefix_number(m) == n),
            !(1 <= n <= 6) ==> r is None,
    {
        match n {
            1 => Some(AkanPrefix::Nwona),
            2 => Some(AkanPrefix::Nkyi),
            3 => Some(AkanPrefix::Kuru),
            4 => Some(AkanPrefix::Kwa),
            5 => Some(AkanPrefix::Mono),
            6 => Some(AkanPrefix::Fo),
            _ => None,
        }
    }
}

/// The second part of the name of a day in the Akan 42-day cycle, from a seven-day cycle.
#[derive(Debug, Clone, Copy, PartialEq, Eq, PartialOrd, Ord, Hash, Structural)]
pub enum AkanStem {
    Wukuo,
    Yaw,
    Fie,
    Memene,
    Kwasi,
    Dwo,
    Bene,
}

/// The number of each value of `AkanStem`.
pub open spec fn akan_stem_number(m: AkanStem) -> int {
    match m {
        AkanStem::Wukuo => 1,
        AkanStem::Yaw => 2,
        AkanStem::Fie => 3,
        AkanStem::Memene => 4,
        AkanStem::Kwasi => 5,
        AkanStem::Dwo => 6,
        AkanStem::Bene => 7,
    }
}

impl AkanStem {
    /// The number of the value.
    pub fn to_u8(self) -> (r: u8)
        ensures
            r == akan_stem_number(self),
    {
        match self {
            AkanStem::Wukuo => 1,
            AkanStem::Yaw => 2,
            AkanStem::Fie => 3,
            AkanStem::Memene => 4,
            AkanStem::Kwasi => 5,
            AkanStem::Dwo => 6,
            AkanStem::Bene => 7,
        }
    }

    /// The value with the given number, if there is one.
    pub fn from_u8(n: u8) -> (r: Option<AkanStem>)
        ensures
            1 <= n <= 7 ==> (r matches Some(m) && akan_stem_number(m) == n),
            !(1 <= n <= 7) ==> r is None,
    {
        match n {
            1 => Some(AkanStem::Wukuo),
            2 => Some(AkanStem::Yaw),
            3 => Some(AkanStem::Fie),
            4 => Some(AkanStem::Memene),
            5 => Some(AkanStem::Kwasi),
            6 => Some(AkanStem::Dwo),
            7 => Some(AkanStem::Bene),
            _ => None,
        }
    }
}


/// The prefix with a number from 1 to 6.
pub open spec fn akan_prefix_of_number(n: int) -> AkanPrefix {
    if n == 1 {
        AkanPrefix::Nwona
    } else if n == 2 {
        AkanPrefix::Nkyi
    } else if n == 3 {
        AkanPrefix::Kuru
    } else if n == 4 {
        AkanPrefix::Kwa
    } else if n == 5 {
        AkanPrefix::Mono
    } else {
        AkanPrefix::Fo
    }
}

/// The stem with a number from 1 to 7.
pub open spec fn akan_stem_of_number(n: int) -> AkanStem {
    if n == 1 {
        AkanStem::Wukuo
    } else if n == 2 {
        AkanStem::Yaw
    } else if n == 3 {
        AkanStem::Fie
    } else if n == 4 {
        AkanStem::Memene
    } else if n == 5 {
        AkanStem::Kwasi
    } else if n == 6 {
        AkanStem::Dwo
    } else {
        AkanStem::Bene
    }
}

impl BoundedCycle<6, 1> for AkanPrefix {
    open spec fn cycle_position(self) -> int {
        akan_prefix_number(self)
    }

    open spec fn at_position(p: int) -> Self {
        akan_prefix_of_number(adjusted_remainder_spec(p, 6))
    }

    fn from_unbounded(x: i64) -> (r: Self) {
        let m = adjusted_remainder(x, 6);
        proof {
            crate::common::math::lemma_modulus_bounds(x as int, 6);
        }
        let r = AkanPrefix::from_u8(m as u8).unwrap();
        proof {
            lemma_akan_numbers(r, AkanStem::Wukuo);
        }
        assert(Self::at_position(x as int) == akan_prefix_of_number(
            adjusted_remainder_spec(x as int, 6),
        ));
        r
    }

    fn to_unbounded(&self) -> (r: i64) {
        self.to_u8() as i64
    }
}

impl BoundedCycle<7, 1> for AkanStem {
    open spec fn cycle_position(self) -> int {
        akan_stem_number(self)
    }

    open spec fn at_position(p: int) -> Self {
        akan_stem_of_number(adjusted_remainder_spec(p, 7))
    }

    fn from_unbounded(x: i64) -> (r: Self) {
        let m = adjusted_remainder(x, 7);
        proof {
            crate::common::math::lemma_modulus_bounds(x as int, 7);
        }
        let r = AkanStem::from_u8(m as u8).unwrap();
        proof {
            lemma_akan_numbers(AkanPrefix::Nwona, r);
        }
        assert(Self::at_position(x as int) == akan_stem_of_number(
            adjusted_remainder_spec(x as int, 7),
        ));
        r
    }

    fn to_unbounded(&self) -> (r: i64) {
        self.to_u8() as i64
    }
}

/// The length of the Akan cycle of day names.
pub const CYCLE_LENGTH: u8 = 42;

/// The day count of a day named Nwona Wukuo, where the cycle starts.
pub const CYCLE_START: i64 = 37;

/// The name of the `n`-th day of the cycle: its prefix and stem numbers.
pub open spec fn akan_name(n: int) -> (int, int) {
    (adjusted_remainder_spec(n, 6), adjusted_remainder_spec(n, 7))
}

/// The number of days from one name to the next occurrence of another, from 1 to 42.
pub open spec fn akan_name_difference(a: (int, int), b: (int, int)) -> int {
    let prefix_diff = b.0 - a.0;
    let stem_diff = b.1 - a.1;
    adjusted_remainder_spec(prefix_diff + 36 * (stem_diff - prefix_diff), 42)
}

/// Represents a day of the Akan 42-day cycle, named by a prefix and a stem.
#[derive(Debug, Clone, Copy, PartialEq, Eq, Structural)]
pub struct Akan {
    prefix: AkanPrefix,
    stem: AkanStem,
}

impl View for Akan {
    type V = (int, int);

    closed spec fn view(&self) -> (int, int) {
        (akan_prefix_number(self.prefix), akan_stem_number(self.stem))
    }
}

impl Akan {
    /// Builds the name from a prefix and a stem.
    pub fn new(prefix: AkanPrefix, stem: AkanStem) -> (r: Akan)
        ensures
            r.prefix_spec() == prefix,
            r.stem_spec() == stem,
            r@ == (akan_prefix_number(prefix), akan_stem_number(stem)),
    {
        Akan { prefix, stem }
    }

    /// The name of the `n`-th day of the cycle.
    pub fn day_name(n: i64) -> (r: Akan)
        ensures
            r@ == akan_name(n as int),
    {
        Akan::new(AkanPrefix::from_unbounded(n), AkanStem::from_unbounded(n))
    }

    /// The number of days from this name to the next day named `other`, from 1 to 42.
    pub fn name_difference(self, other: Self) -> (r: i16)
        ensures
            r == akan_name_difference(self@, other@),
            1 <= r <= 42,
    {
        let prefix1 = self.prefix.to_u8() as i16;
        let stem1 = self.stem.to_u8() as i16;
        let prefix2 = other.prefix.to_u8() as i16;
        let stem2 = other.stem.to_u8() as i16;
        let prefix_diff = prefix2 - prefix1;
        let stem_diff = stem2 - stem1;
        let r = adjusted_remainder((prefix_diff + 36 * (stem_diff - prefix_diff)) as i64, 42);
        proof {
            crate::common::math::lemma_modulus_bounds(
                (prefix_diff + 36 * (stem_diff - prefix_diff)) as int,
                42,
            );
        }
        r as i16
    }

    /// The stem of the name.
    pub closed spec fn stem_spec(self) -> AkanStem {
        self.stem
    }

    /// The prefix of the name.
    pub closed spec fn prefix_spec(self) -> AkanPrefix {
        self.prefix
    }

    /// The stem of the name.
    pub fn stem(self) -> (r: AkanStem)
        ensures
            r == self.stem_spec(),
            akan_stem_number(r) == self@.1,
    {
        self.stem
    }

    /// The prefix of the name.
    pub fn prefix(self) -> (r: AkanPrefix)
        ensures
            r == self.prefix_spec(),
            akan_prefix_number(r) == self@.0,
    {
        self.prefix
    }

    /// The name of the `n`-th day of the cycle, as an `Option` for callers that convert
    /// numbers generically; it always has one.
    pub fn from_i64(n: i64) -> (r: Option<Akan>)
        ensures
            r matches Some(a) && a@ == akan_name(n as int),
    {
        Some(Akan::day_name(n))
    }

    /// The name of the `n`-th day of the cycle, if `n` fits in `i64`.
    pub fn from_u64(n: u64) -> (r: Option<Akan>)
        ensures
            n <= i64::MAX ==> (r matches Some(a) && a@ == akan_name(n as int)),
            n > i64::MAX ==> r is None,
    {
        if n <= i64::MAX as u64 {
            Akan::from_i64(n as i64)
        } else {
            None
        }
    }

    /// The place of the name in the cycle, from 1 (Nwona Wukuo) to 42.
    pub fn to_i64(&self) -> (r: Option<i64>)
        ensures
            r == Some(akan_name_difference((1, 1), self@) as i64),
    {
        let a = Akan::new(AkanPrefix::Nwona, AkanStem::Wukuo);
        Some(a.name_difference(*self) as i64)
    }

    /// The place of the name in the cycle, from 1 (Nwona Wukuo) to 42.
    pub fn to_u64(&self) -> (r: Option<u64>)
        ensures
            r == Some(akan_name_difference((1, 1), self@) as u64),
    {
        let a = Akan::new(AkanPrefix::Nwona, AkanStem::Wukuo);
        Some(a.name_difference(*self) as u64)
    }
}

impl Epoch for Akan {
    open spec fn epoch_spec() -> int {
        CYCLE_START as int
    }

    fn epoch() -> (r: i64) {
        assert(Self::epoch_spec() == 37);
        CYCLE_START
    }
}

impl FromFixed for Akan {
    closed spec fn from_fixed_spec(date: int) -> Self {
        let v = akan_name(date - CYCLE_START);
        Akan { prefix: akan_prefix_of_number(v.0), stem: akan_stem_of_number(v.1) }
    }

    fn from_fixed(t: i64) -> (r: Self)
        ensures
            r@ == akan_name(t - CYCLE_START),
    {
        let r = Akan::day_name(t - Akan::epoch());
        proof {
            lemma_akan_numbers(r.prefix, r.stem);
            assert(r == Self::from_fixed_spec(t as int));
        }
        r
    }
}

impl BoundedCycle<42, 1> for Akan {
    open spec fn cycle_position(self) -> int {
        akan_name_difference((1, 1), self@)
    }

    closed spec fn at_position(p: int) -> Self {
        let v = akan_name(adjusted_remainder_spec(p, 42));
        Akan { prefix: akan_prefix_of_number(v.0), stem: akan_stem_of_number(v.1) }
    }

    fn from_unbounded(x: i64) -> (r: Self) {
        let r = Akan::from_i64(adjusted_remainder(x, 42)).unwrap();
        proof {
            lemma_akan_numbers(r.prefix, r.stem);
        }
        r
    }

    fn to_unbounded(&self) -> (r: i64) {
        self.to_i64().unwrap()
    }
}

impl OnOrBefore<42, 1> for Akan {
    open spec fn on_or_before_spec(self, date: int) -> int {
        let diff = akan_name_difference(akan_name(0 - CYCLE_START), self@);
        date + modulus_spec(diff - date, -42)
    }

    fn raw_on_or_before(self, date: i64) -> (r: i64) {
        let diff = Akan::from_fixed(0).name_difference(self) as i64;
        proof {
            crate::common::math::lemma_modulus_bounds(diff - date, -42);
        }
        interval_modulus(diff, date, date - (CYCLE_LENGTH as i64))
    }
}

/// Whether a pair of numbers names a day: a prefix from 1 to 6 and a stem from 1 to 7.
pub open spec fn akan_name_valid(v: (int, int)) -> bool {
    1 <= v.0 <= 6 && 1 <= v.1 <= 7
}

/// The day `name_difference` days after a name has the other name.
pub proof fn lemma_akan_name_difference_reaches(n: int, b: (int, int))
    requires
        akan_name_valid(b),
    ensures
        akan_name(n + akan_name_difference(akan_name(n), b)) == b,
{
    let a = akan_name(n);
    let raw = (b.0 - a.0) + 36 * ((b.1 - a.1) - (b.0 - a.0));
    lemma_div_mod_parts(n, 6);
    lemma_div_mod_parts(n, 7);
    lemma_div_mod_parts(raw, 42);
    let d = akan_name_difference(a, b);
    let x = n + d;
    lemma_div_mod_parts(x, 6);
    lemma_div_mod_parts(x, 7);
    let k = if raw % 42 == 0 {
        raw / 42 - 1
    } else {
        raw / 42
    };
    assert(d == raw - 42 * k);
    assert(x == n + (b.0 - a.0) + 6 * (6 * ((b.1 - a.1) - (b.0 - a.0)) - 7 * k));
    assert(x == n + (b.1 - a.1) + 7 * (5 * ((b.1 - a.1) - (b.0 - a.0)) - 6 * k));
    let q6 = 6 * ((b.1 - a.1) - (b.0 - a.0)) - 7 * k;
    let q7 = 5 * ((b.1 - a.1) - (b.0 - a.0)) - 6 * k;
    if b.0 == 6 {
        lemma_div_in_range(x, 6, n / 6 + (if n % 6 == 0 { 0int } else { 1int }) + q6);
    } else {
        lemma_div_in_range(x, 6, n / 6 - (if n % 6 == 0 { 1int } else { 0int }) + q6);
    }
    if b.1 == 7 {
        lemma_div_in_range(x, 7, n / 7 + (if n % 7 == 0 { 0int } else { 1int }) + q7);
    } else {
        lemma_div_in_range(x, 7, n / 7 - (if n % 7 == 0 { 1int } else { 0int }) + q7);
    }
}

/// The name of a day repeats every 42 days.
pub proof fn lemma_akan_name_periodic(n: int, k: int)
    ensures
        akan_name(n + 42 * k) == akan_name(n),
{
    lemma_div_mod_parts(n, 6);
    lemma_div_mod_parts(n, 7);
    lemma_div_in_range(n + 42 * k, 6, n / 6 + 7 * k);
    lemma_div_in_range(n + 42 * k, 7, n / 7 + 6 * k);
}

/// The number of days from the name of day `n` to the name of day `m` is `m - n`, taken
/// around the cycle into the range 1 to 42.
pub proof fn law_akan_name_difference(n: int, m: int)
    ensures
        akan_name_difference(akan_name(n), akan_name(m)) == adjusted_remainder_spec(m - n, 42),
{
    let d = akan_name_difference(akan_name(n), akan_name(m));
    lemma_div_mod_parts(n, 6);
    lemma_div_mod_parts(n, 7);
    lemma_div_mod_parts(m, 6);
    lemma_div_mod_parts(m, 7);
    lemma_akan_name_difference_reaches(n, akan_name(m));
    crate::common::math::lemma_modulus_bounds(
        (akan_name(m).0 - akan_name(n).0) + 36 * ((akan_name(m).1 - akan_name(n).1) - (
        akan_name(m).0 - akan_name(n).0)),
        42,
    );
    let e = adjusted_remainder_spec(m - n, 42);
    lemma_div_mod_parts(m - n, 42);
    lemma_akan_name_periodic(m, -((m - n - e) / 42));
    lemma_div_in_range(m - n - e, 42, (m - n - e) / 42);
    lemma_akan_unique_in_cycle(n, d, e);
}

/// Two days within one cycle after a day that have the same name are the same day.
proof fn lemma_akan_unique_in_cycle(n: int, d: int, e: int)
    requires
        1 <= d <= 42,
        1 <= e <= 42,
        akan_name(n + d) == akan_name(n + e),
    ensures
        d == e,
{
    lemma_div_mod_parts(n + d, 6);
    lemma_div_mod_parts(n + d, 7);
    lemma_div_mod_parts(n + e, 6);
    lemma_div_mod_parts(n + e, 7);
    lemma_div_mod_parts(d - e, 6);
    lemma_div_mod_parts(d - e, 7);
    if d != e {
        assert((d - e) % 6 == 0 && (d - e) % 7 == 0);
        lemma_div_mod_parts(d - e, 42);
    }
}

/// The day that `on_or_before` finds has the given name and lies within the 42 days up to
/// the given day.
pub proof fn law_akan_on_or_before(a: Akan, date: int)
    ensures
        akan_name(a.on_or_before_spec(date) - CYCLE_START) == a@,
        date - 42 < a.on_or_before_spec(date) <= date,
{
    let n = 0 - CYCLE_START;
    let diff = akan_name_difference(akan_name(n), a@);
    lemma_akan_name_difference_reaches(n, a@);
    crate::common::math::lemma_modulus_bounds(diff - date, -42);
    let r = a.on_or_before_spec(date);
    lemma_div_mod_parts(-(diff - date), 42);
    lemma_akan_name_periodic(n + diff, (r - diff) / 42);
    lemma_div_in_range(r - diff, 42, (r - diff) / 42);
}

/// Prefixes and stems are told apart by their numbers.
proof fn lemma_akan_numbers(p: AkanPrefix, s: AkanStem)
    ensures
        akan_prefix_of_number(akan_prefix_number(p)) == p,
        akan_stem_of_number(akan_stem_number(s)) == s,
{
}

/// The day after a day takes the next prefix and the next stem, Fo being followed by Nwona
/// and Bene by Wukuo.
pub proof fn law_akan_next_day(n: int)
    ensures
        akan_name(n + 1).0 == (if akan_name(n).0 == 6 {
            1
        } else {
            akan_name(n).0 + 1
        }),
        akan_name(n + 1).1 == (if akan_name(n).1 == 7 {
            1
        } else {
            akan_name(n).1 + 1
        }),
{
    lemma_div_mod_parts(n, 6);
    lemma_div_mod_parts(n, 7);
    lemma_div_mod_parts(n + 1, 6);
    lemma_div_mod_parts(n + 1, 7);
    if n % 6 == 5 {
        lemma_div_in_range(n + 1, 6, n / 6 + 1);
    } else {
        lemma_div_in_range(n + 1, 6, n / 6);
    }
    if n % 7 == 6 {
        lemma_div_in_range(n + 1, 7, n / 7 + 1);
    } else {
        lemma_div_in_range(n + 1, 7, n / 7);
    }
}

/// The prefix repeats every six days and the stem every seven: days one to five apart have
/// different prefixes, days one to six apart have different stems.
pub proof fn law_akan_repeats(n: int, d: int)
    ensures
        1 <= d <= 5 ==> akan_name(n + d).0 != akan_name(n).0,
        akan_name(n + 6).0 == akan_name(n).0,
        akan_name(n + 7).0 != akan_name(n).0,
        1 <= d <= 6 ==> akan_name(n + d).1 != akan_name(n).1,
        akan_name(n + 7).1 == akan_name(n).1,
{
    lemma_div_mod_parts(n, 6);
    lemma_div_mod_parts(n, 7);
    lemma_div_mod_parts(n + d, 6);
    lemma_div_mod_parts(n + d, 7);
    lemma_div_mod_parts(n + 6, 6);
    lemma_div_mod_parts(n + 7, 6);
    lemma_div_mod_parts(n + 7, 7);
    lemma_div_in_range(n + 6, 6, n / 6 + 1);
    lemma_div_in_range(n + 7, 7, n / 7 + 1);
    if n % 6 == 5 {
        lemma_div_in_range(n + 7, 6, n / 6 + 2);
    } else {
        lemma_div_in_range(n + 7, 6, n / 6 + 1);
    }
    if 1 <= d <= 6 {
        if n % 6 + d >= 6 {
            lemma_div_in_range(n + d, 6, n / 6 + 1);
        } else {
            lemma_div_in_range(n + d, 6, n / 6);
        }
        if n % 7 + d >= 7 {
            lemma_div_in_range(n + d, 7, n / 7 + 1);
        } else {
            lemma_div_in_range(n + d, 7, n / 7);
        }
    }
}

/// The whole name of a day repeats every 42 days and at no smaller distance: days one to
/// 41 apart have different names.
pub proof fn law_akan_period(n: int, d: int)
    ensures
        akan_name(n + 42) == akan_name(n),
        1 <= d <= 41 ==> akan_name(n + d) != akan_name(n),
{
    lemma_akan_name_periodic(n, 1);
    if 1 <= d <= 41 && akan_name(n + d) == akan_name(n) {
        lemma_akan_unique_in_cycle(n, d, 42);
    }
}

/// Each pair of a prefix and a stem names exactly one day of every 42 consecutive days: the
/// day `akan_name_difference` days on, and no other.
pub proof fn law_akan_each_name_once(n: int, b: (int, int))
    requires
        akan_name_valid(b),
    ensures
        1 <= akan_name_difference(akan_name(n), b) <= 42,
        akan_name(n + akan_name_difference(akan_name(n), b)) == b,
        forall|d: int|
            1 <= d <= 42 && #[trigger] akan_name(n + d) == b ==> d == akan_name_difference(
                akan_name(n),
                b,
            ),
{
    let e = akan_name_difference(akan_name(n), b);
    let a = akan_name(n);
    lemma_div_mod_parts((b.0 - a.0) + 36 * ((b.1 - a.1) - (b.0 - a.0)), 42);
    lemma_akan_name_difference_reaches(n, b);
    assert forall|d: int| 1 <= d <= 42 && #[trigger] akan_name(n + d) == b implies d == e by {
        lemma_akan_unique_in_cycle(n, d, e);
    }
}

/// The cycle of day names counts from day 37: day 38 (February 7 of AD 1 in the Gregorian
/// calendar) is Nwona-Wukuo, the first name of the cycle, and January 1 of AD 1 (day 1) is
/// Fo-Dwo.
pub proof fn law_akan_cycle_start()
    ensures
        Akan::from_fixed_spec(38)@ == (1int, 1int),
        Akan::from_fixed_spec(38).prefix_spec() == AkanPrefix::Nwona,
        Akan::from_fixed_spec(38).stem_spec() == AkanStem::Wukuo,
        Akan::from_fixed_spec(1)@ == (6int, 6int),
{
    crate::calendar::arith::lemma_div_mod_parts(-36, 6);
    crate::calendar::arith::lemma_div_mod_parts(-36, 7);
}

} // verus!
