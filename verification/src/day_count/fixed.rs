use vstd::prelude::*;

verus! {

/// The largest day count that conversions accept: day counts beyond it are
/// outside the range of time that the library supports.
pub const FIXED_MAX: i64 = 17171480576;

/// The smallest day count that conversions accept.
pub const FIXED_MIN: i64 = -17171480576;

/// Whether a day count lies within the supported range of time.
pub open spec fn fixed_in_bounds(date: int) -> bool {
    FIXED_MIN <= date <= FIXED_MAX
}

/// Whether a day count lies far enough from the limits of `i64` that days can be added to
/// it or taken from it freely; intermediate results of calculations may leave the supported
/// range of time but stay within this one.
pub open spec fn day_count_computable(date: int) -> bool {
    -0x2000_0000_0000_0000 <= date <= 0x2000_0000_0000_0000
}

/// Values that can be built from a count of days since the epoch of the
/// library's day count (day 1 is January 1, 1 of the proleptic Gregorian calendar).
pub trait FromFixed: Sized {
    /// The value that stands for the given day.
    spec fn from_fixed_spec(date: int) -> Self;

    /// Builds the value that stands for the given day.
    fn from_fixed(date: i64) -> (r: Self)
        requires
            fixed_in_bounds(date as int),
        ensures
            r == Self::from_fixed_spec(date as int),
    ;
}

/// Values that stand for a day, which can be turned into a count of days.
pub trait ToFixed: Sized {
    /// The day that the value stands for.
    spec fn fixed_spec(self) -> int;

    /// Returns the day that the value stands for.
    fn to_fixed(self) -> (r: i64)
        ensures
            r == self.fixed_spec(),
    ;

    /// Converts the value into another system that can be built from a day count.
    fn convert<T: FromFixed>(self) -> (r: T)
        requires
            fixed_in_bounds(self.fixed_spec()),
        ensures
            r == T::from_fixed_spec(self.fixed_spec()),
    {
        T::from_fixed(self.to_fixed())
    }
}

/// Systems with an epoch: the first day of their count.
pub trait Epoch {
    spec fn epoch_spec() -> int;

    /// The day count of the epoch.
    fn epoch() -> (r: i64)
        ensures
            r == Self::epoch_spec(),
    ;
}

/// Calendar systems with a date for every day within the library's bounds: the date built
/// from a day stands for that day, and a date's day builds that date again.
pub trait CalculatedBounds: FromFixed + ToFixed + Sized {
    /// Whether a value is a date of the calendar; every value that the library's functions
    /// give is one.
    spec fn valid_date(self) -> bool;

    /// The date built from a day stands for that day.
    proof fn lemma_from_fixed_keeps_day(date: int)
        requires
            fixed_in_bounds(date),
        ensures
            Self::from_fixed_spec(date).valid_date(),
            Self::from_fixed_spec(date).fixed_spec() == date,
    ;

    /// Building a date from the day of a date gives that date.
    proof fn lemma_to_fixed_and_back(x: Self)
        requires
            x.valid_date(),
        ensures
            Self::from_fixed_spec(x.fixed_spec()) == x,
    ;
}

/// Converting a date into another calendar keeps the day that it stands for.
pub proof fn law_convert_keeps_day<S: ToFixed, T: CalculatedBounds>(x: S)
    requires
        fixed_in_bounds(x.fixed_spec()),
    ensures
        T::from_fixed_spec(x.fixed_spec()).fixed_spec() == x.fixed_spec(),
{
    T::lemma_from_fixed_keeps_day(x.fixed_spec());
}

/// Converting a date into another calendar and back gives the date again.
pub proof fn law_convert_and_back<S: CalculatedBounds, T: CalculatedBounds>(x: S)
    requires
        x.valid_date(),
        fixed_in_bounds(x.fixed_spec()),
    ensures
        S::from_fixed_spec(T::from_fixed_spec(x.fixed_spec()).fixed_spec()) == x,
{
    T::lemma_from_fixed_keeps_day(x.fixed_spec());
    S::lemma_to_fixed_and_back(x);
}

/// The earliest and the latest dates that a calendar takes within the library's bounds.
pub trait EffectiveBound: CalculatedBounds {
    /// The date of the earliest day within the bounds.
    fn effective_min() -> (r: Self)
        ensures
            r == Self::from_fixed_spec(FIXED_MIN as int),
            r.fixed_spec() == FIXED_MIN,
            r.valid_date(),
    {
        proof {
            Self::lemma_from_fixed_keeps_day(FIXED_MIN as int);
        }
        Self::from_fixed(FIXED_MIN)
    }

    /// The date of the latest day within the bounds.
    fn effective_max() -> (r: Self)
        ensures
            r == Self::from_fixed_spec(FIXED_MAX as int),
            r.fixed_spec() == FIXED_MAX,
            r.valid_date(),
    {
        proof {
            Self::lemma_from_fixed_keeps_day(FIXED_MAX as int);
        }
        Self::from_fixed(FIXED_MAX)
    }
}

impl<T: CalculatedBounds> EffectiveBound for T {
}

} // verus!
