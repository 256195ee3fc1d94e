use crate::day_count::fixed::day_count_computable;
use vstd::prelude::*;

verus! {

/// Repeating cycles of named days, numbered from `M` (0 or 1) with `N` days in a cycle.
pub trait BoundedCycle<const N: u8, const M: u8>: Sized {
    /// The position in the cycle that a value stands for.
    spec fn cycle_position(self) -> int;

    /// The value at a position of the cycle.
    spec fn at_position(p: int) -> Self;

    /// The number of days in the cycle.
    fn cycle_length() -> (r: u8)
        ensures
            r == N,
    {
        N
    }

    /// The number of the first day of the cycle.
    fn min() -> (r: u8)
        ensures
            r == M,
    {
        M
    }

    /// The number of the last day of the cycle.
    fn max() -> (r: u8)
        requires
            N > 0,
            M <= 1,
        ensures
            M == 0 ==> r == N - 1,
            M == 1 ==> r == N,
    {
        if M == 0 {
            N - 1
        } else {
            N
        }
    }

    /// The value at the position of an unbounded count, taken around the cycle.
    fn from_unbounded(x: i64) -> (r: Self)
        ensures
            r == Self::at_position(x as int),
    ;

    /// The number of the value.
    fn to_unbounded(&self) -> (r: i64)
        ensures
            r == self.cycle_position(),
    ;
}

/// Day cycles in which one can find the day of a given name near a given day.
pub trait OnOrBefore<const N: u8, const M: u8>: BoundedCycle<N, M> + Copy {
    /// The last day of this name on or before a given day count.
    spec fn on_or_before_spec(self, date: int) -> int;

    /// The last day of this name on or before a given day count.
    fn raw_on_or_before(self, date: i64) -> (r: i64)
        requires
            day_count_computable(date as int),
        ensures
            r == self.on_or_before_spec(date as int),
            date - N < r <= date,
    ;

    /// The last day of this name on or before a given day count.
    fn on_or_before(self, date: i64) -> (r: i64)
        requires
            day_count_computable(date as int),
        ensures
            r == self.on_or_before_spec(date as int),
    {
        self.raw_on_or_before(date)
    }

    /// The first day of this name on or after a given day count.
    fn on_or_after(self, date: i64) -> (r: i64)
        requires
            day_count_computable(date as int + N - 1),
        ensures
            r == self.on_or_before_spec(date + N - 1),
    {
        self.raw_on_or_before(date + ((N as i64) - 1))
    }

    /// The day of this name nearest to a given day count.
    fn nearest(self, date: i64) -> (r: i64)
        requires
            day_count_computable(date as int + N / 2),
        ensures
            r == self.on_or_before_spec(date + N / 2),
    {
        self.raw_on_or_before(date + ((N as i64) / 2))
    }

    /// The last day of this name strictly before a given day count.
    fn before(self, date: i64) -> (r: i64)
        requires
            day_count_computable(date - 1),
        ensures
            r == self.on_or_before_spec(date - 1),
    {
        self.raw_on_or_before(date - 1)
    }

    /// The first day of this name strictly after a given day count.
    fn after(self, date: i64) -> (r: i64)
        requires
            day_count_computable(date as int + N),
        ensures
            r == self.on_or_before_spec(date + N),
    {
        self.raw_on_or_before(date + (N as i64))
    }
}

} // verus!
