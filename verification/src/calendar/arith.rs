use vstd::arithmetic::div_mod::*;
use vstd::prelude::*;

verus! {

/// Integer division is pinned down by bounding the dividend between two multiples.
pub proof fn lemma_div_in_range(x: int, d: int, q: int)
    requires
        d > 0,
        q * d <= x < q * d + d,
    ensures
        x / d == q,
        x % d == x - q * d,
{
    lemma_fundamental_div_mod_converse(x, d, q, x - q * d);
}

/// Floor division by a positive divisor is monotone.
pub proof fn lemma_div_monotone(x: int, y: int, d: int)
    requires
        d > 0,
        x <= y,
    ensures
        x / d <= y / d,
{
    lemma_div_is_ordered(x, y, d);
}

/// The quotient and remainder rebuild the dividend.
pub proof fn lemma_div_mod_parts(x: int, d: int)
    requires
        d > 0,
    ensures
        x == d * (x / d) + x % d,
        0 <= x % d < d,
{
    lemma_fundamental_div_mod(x, d);
    lemma_mod_bound(x, d);
}

} // verus!
