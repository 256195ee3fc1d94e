use crate::common::error::CalendarError;
use vstd::arithmetic::div_mod::*;
use vstd::prelude::*;

verus! {

/// The largest magnitude of a day count that the library works with: 2 to the power 34.
pub const EFFECTIVE_MAX: i64 = 17179869184;

/// The most negative day count that the library works with.
pub const EFFECTIVE_MIN: i64 = -17179869184;

/// Floor-style remainder: the result has the sign of the divisor, as in
/// `x - y * floor(x / y)`.
pub open spec fn modulus_spec(x: int, y: int) -> int {
    if y > 0 {
        x % y
    } else {
        -((-x) % (-y))
    }
}

/// Like the remainder, but a result of zero is replaced by the divisor.
pub open spec fn adjusted_remainder_spec(x: int, b: int) -> int {
    if modulus_spec(x, b) == 0 {
        b
    } else {
        modulus_spec(x, b)
    }
}

/// Shifts `x` into the interval that starts at `a` and spans `b - a`.
pub open spec fn interval_modulus_spec(x: int, a: int, b: int) -> int {
    if a == b {
        x
    } else {
        a + modulus_spec(x - a, b - a)
    }
}

/// The sign of an integer: -1, 0 or 1.
pub open spec fn sign_spec(x: int) -> int {
    if x == 0 {
        0
    } else if x > 0 {
        1
    } else {
        -1
    }
}

pub open spec fn abs_spec(x: int) -> int {
    if x < 0 {
        -x
    } else {
        x
    }
}

/// Euclid's algorithm on the floor-style remainder.
pub open spec fn gcd_spec(x: int, y: int) -> int
    decreases abs_spec(y),
{
    if y == 0 {
        x
    } else {
        proof {
            lemma_modulus_bounds(x, y);
        }
        gcd_spec(y, modulus_spec(x, y))
    }
}

/// Division that rounds toward zero, as Rust's `/` on signed integers does.
pub open spec fn trunc_div(x: int, y: int) -> int {
    if (x >= 0) == (y > 0) {
        abs_spec(x) / abs_spec(y)
    } else {
        -(abs_spec(x) / abs_spec(y))
    }
}

pub proof fn lemma_modulus_bounds(x: int, y: int)
    requires
        y != 0,
    ensures
        y > 0 ==> 0 <= modulus_spec(x, y) < y,
        y < 0 ==> y < modulus_spec(x, y) <= 0,
        abs_spec(modulus_spec(x, y)) < abs_spec(y),
{
    if y > 0 {
        lemma_mod_bound(x, y);
    } else {
        lemma_mod_bound(-x, -y);
    }
}

/// Floor division by a positive divisor (Rust's `div_euclid`).
pub fn div_floor(x: i64, y: i64) -> (r: i64)
    requires
        y > 0,
    ensures
        r == x as int / y as int,
{
    proof {
        lemma_div_bounded_by_dividend(x as int, y as int);
    }
    x.checked_div_euclid(y).unwrap()
}

/// Remainder of floor division by a positive divisor (Rust's `rem_euclid`).
pub fn mod_floor(x: i64, y: i64) -> (r: i64)
    requires
        y > 0,
    ensures
        r == x as int % y as int,
        0 <= r < y,
{
    proof {
        lemma_mod_bound(x as int, y as int);
    }
    x.checked_rem_euclid(y).unwrap()
}

pub proof fn lemma_div_bounded_by_dividend(x: int, y: int)
    requires
        y > 0,
    ensures
        x >= 0 ==> 0 <= x / y <= x,
        x < 0 ==> x <= x / y < 0,
{
    lemma_fundamental_div_mod(x, y);
    lemma_mod_bound(x, y);
    if x >= 0 {
        lemma_div_pos_is_pos(x, y);
        lemma_div_is_ordered_by_denominator(x, 1, y);
    } else {
        assert(x <= x / y < 0) by (nonlinear_arith)
            requires
                x == y * (x / y) + x % y,
                0 <= x % y < y,
                y >= 1,
                x < 0,
        ;
    }
}

/// The floor-style remainder of two integers.
pub fn modulus(x: i64, y: i64) -> (r: i64)
    requires
        y != 0,
        y < 0 ==> x > i64::MIN && y > i64::MIN,
    ensures
        r == modulus_spec(x as int, y as int),
{
    if y > 0 {
        mod_floor(x, y)
    } else {
        proof {
            lemma_mod_bound(-x, -y);
        }
        -mod_floor(-x, -y)
    }
}

/// The remainder, except that a zero remainder becomes the divisor.
pub fn adjusted_remainder(x: i64, b: i64) -> (r: i64)
    requires
        b != 0,
        b < 0 ==> x > i64::MIN && b > i64::MIN,
    ensures
        r == adjusted_remainder_spec(x as int, b as int),
{
    let m = modulus(x, b);
    if m == 0 {
        b
    } else {
        m
    }
}

/// Brings `x` into the interval between `a` and `b` by adding a multiple of `b - a`.
pub fn interval_modulus(x: i64, a: i64, b: i64) -> (r: i64)
    requires
        i64::MIN < x - a < i64::MAX,
        i64::MIN < b - a < i64::MAX,
        a != b ==> i64::MIN <= a + modulus_spec(x - a, b - a) <= i64::MAX,
    ensures
        r == interval_modulus_spec(x as int, a as int, b as int),
{
    if a == b {
        x
    } else {
        a + modulus(x - a, b - a)
    }
}

/// The sign of an integer.
pub fn sign(x: i64) -> (r: i64)
    ensures
        r == sign_spec(x as int),
{
    if x == 0 {
        0
    } else if x > 0 {
        1
    } else {
        -1
    }
}

/// Greatest common divisor by Euclid's algorithm.
pub fn gcd(x: i64, y: i64) -> (r: i64)
    requires
        x > i64::MIN,
        y > i64::MIN,
    ensures
        r == gcd_spec(x as int, y as int),
    decreases abs_spec(y as int),
{
    if y == 0 {
        x
    } else {
        proof {
            lemma_modulus_bounds(x as int, y as int);
        }
        let m = modulus(x, y);
        gcd(y, m)
    }
}

/// Least common multiple: the product divided by the greatest common divisor.
pub fn lcm(x: i64, y: i64) -> (r: i64)
    requires
        x > i64::MIN,
        y > i64::MIN,
        i64::MIN < x * y <= i64::MAX,
        gcd_spec(x as int, y as int) != 0,
    ensures
        r == trunc_div(x * y, gcd_spec(x as int, y as int)),
{
    let g = gcd(x, y);
    let p = x * y;
    let pa: u64 = if p < 0 { (-p) as u64 } else { p as u64 };
    let ga: u64 = if g < 0 {
        if g == i64::MIN {
            0x8000_0000_0000_0000u64
        } else {
            (-g) as u64
        }
    } else {
        g as u64
    };
    let q = pa / ga;
    proof {
        lemma_div_is_ordered_by_denominator(pa as int, 1, ga as int);
    }
    if (p >= 0) == (g > 0) {
        q as i64
    } else {
        -(q as i64)
    }
}

/// Checks the digits `a` and the bases `b` of a mixed-radix number: there is one digit more
/// than there are bases, and no base is zero.
pub fn validate_mixed_radix(a: &[i64], b: &[i64]) -> (r: Result<(), CalendarError>)
    ensures
        a@.len() != b@.len() + 1 ==> r == Err::<(), CalendarError>(CalendarError::MixedRadixWrongSize),
        a@.len() == b@.len() + 1 && (exists|i: int| 0 <= i < b@.len() && b@[i] == 0) ==> r
            == Err::<(), CalendarError>(CalendarError::MixedRadixZeroBase),
        a@.len() == b@.len() + 1 && (forall|i: int| 0 <= i < b@.len() ==> b@[i] != 0) ==> r
            == Ok::<(), CalendarError>(()),
{
    if a.len() == 0 || a.len() - 1 != b.len() {
        return Err(CalendarError::MixedRadixWrongSize);
    }
    let mut i: usize = 0;
    while i < b.len()
        invariant
            0 <= i <= b@.len(),
            a@.len() == b@.len() + 1,
            forall|j: int| 0 <= j < i ==> b@[j] != 0,
        decreases b@.len() - i,
    {
        if b[i] == 0 {
            assert(b@[i as int] == 0);
            return Err(CalendarError::MixedRadixZeroBase);
        }
        i = i + 1;
    }
    Ok(())
}

/// Scaling the dividend and a positive divisor by the same positive number scales the
/// Euclidean remainder by it.
proof fn lemma_mod_scaled_positive(x: int, y: int, z: int)
    requires
        y > 0,
        z > 0,
    ensures
        (x * z) % (y * z) == (x % y) * z,
{
    lemma_fundamental_div_mod(x, y);
    lemma_mod_bound(x, y);
    let q = x / y;
    let r = x % y;
    assert(x * z == q * (y * z) + r * z && 0 <= r * z < y * z) by (nonlinear_arith)
        requires
            x == y * q + r,
            0 <= r < y,
            z > 0,
    ;
    lemma_fundamental_div_mod_converse(x * z, y * z, q, r * z);
}

/// The remainder of a negated dividend by a positive divisor is the divisor less the
/// remainder, unless the remainder is zero.
pub proof fn law_modulus_negated_dividend(x: int, y: int)
    requires
        y > 0,
        modulus_spec(x, y) != 0,
    ensures
        modulus_spec(-x, y) == y - modulus_spec(x, y),
{
    lemma_fundamental_div_mod(x, y);
    lemma_mod_bound(x, y);
    let q = x / y;
    let r = x % y;
    assert(-x == (-q - 1) * y + (y - r)) by (nonlinear_arith)
        requires
            x == y * q + r,
    ;
    lemma_fundamental_div_mod_converse(-x, y, -q - 1, y - r);
}

/// Negating both the dividend and the divisor negates the remainder.
pub proof fn law_modulus_both_negated(x: int, y: int)
    requires
        y != 0,
    ensures
        modulus_spec(-x, -y) == -modulus_spec(x, y),
{
}

/// Multiplying the dividend and the divisor by the same non-zero number multiplies the
/// remainder by it.
pub proof fn law_modulus_scaled(x: int, y: int, z: int)
    requires
        y != 0,
        z != 0,
    ensures
        modulus_spec(x * z, y * z) == modulus_spec(x, y) * z,
{
    if y > 0 && z > 0 {
        assert(y * z > 0) by (nonlinear_arith)
            requires
                y > 0,
                z > 0,
        ;
        lemma_mod_scaled_positive(x, y, z);
    } else if y > 0 && z < 0 {
        assert(y * z < 0 && -(y * z) == y * (-z) && -(x * z) == x * (-z)) by (nonlinear_arith)
            requires
                y > 0,
                z < 0,
        ;
        lemma_mod_scaled_positive(x, y, -z);
        assert((x % y) * (-z) == -((x % y) * z)) by (nonlinear_arith);
    } else if y < 0 && z > 0 {
        assert(y * z < 0 && -(y * z) == (-y) * z && -(x * z) == (-x) * z) by (nonlinear_arith)
            requires
                y < 0,
                z > 0,
        ;
        lemma_mod_scaled_positive(-x, -y, z);
        assert(-(((-x) % (-y)) * z) == (-((-x) % (-y))) * z) by (nonlinear_arith);
    } else {
        assert(y * z > 0 && y * z == (-y) * (-z) && x * z == (-x) * (-z)) by (nonlinear_arith)
            requires
                y < 0,
                z < 0,
        ;
        lemma_mod_scaled_positive(-x, -y, -z);
        assert(((-x) % (-y)) * (-z) == (-((-x) % (-y))) * z) by (nonlinear_arith);
    }
}

/// The dividend less its remainder is a multiple of the divisor.
pub proof fn law_modulus_leaves_multiple(x: int, y: int)
    requires
        y != 0,
    ensures
        (x - modulus_spec(x, y)) % abs_spec(y) == 0,
{
    if y > 0 {
        lemma_fundamental_div_mod(x, y);
        let q = x / y;
        assert(x - x % y == q * y) by (nonlinear_arith)
            requires
                x == y * q + x % y,
        ;
        lemma_mod_multiples_basic(q, y);
    } else {
        lemma_fundamental_div_mod(-x, -y);
        let q = (-x) / (-y);
        assert(x - modulus_spec(x, y) == (-q) * (-y)) by (nonlinear_arith)
            requires
                -x == (-y) * q + (-x) % (-y),
                modulus_spec(x, y) == -((-x) % (-y)),
        ;
        lemma_mod_multiples_basic(-q, -y);
    }
}

/// The remainder, taken with the sign of the divisor, lies between zero and the size of
/// the divisor.
pub proof fn law_modulus_sign_bounds(x: int, y: int)
    requires
        y != 0,
    ensures
        0 <= modulus_spec(x, y) * sign_spec(y) < abs_spec(y),
{
    lemma_modulus_bounds(x, y);
}

} // verus!
