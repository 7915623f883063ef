//! Facts about floor division that the share math rests on.

use vstd::prelude::*;

verus! {

/// The quotient `x / d` is the one `q` with `q * d <= x < (q + 1) * d`.
pub proof fn lemma_floor_bounds(x: int, d: int)
    by (nonlinear_arith)
    requires
        0 <= x,
        0 < d,
    ensures
        0 <= x / d,
        (x / d) * d <= x,
        x < (x / d + 1) * d,
{
}

/// A `q` that brackets `x` between consecutive multiples of `d` is `x / d`.
pub proof fn lemma_floor_unique(x: int, d: int, q: int)
    by (nonlinear_arith)
    requires
        0 < d,
        q * d <= x,
        x < (q + 1) * d,
    ensures
        x / d == q,
{
}

/// Floor division is monotone in the numerator.
pub proof fn lemma_floor_monotone(x: int, y: int, d: int)
    by (nonlinear_arith)
    requires
        0 <= x <= y,
        0 < d,
    ensures
        x / d <= y / d,
{
}

/// Comparing two fractions by cross multiplication carries over to their
/// floors: from `y / s <= x / t` as rationals follows the same of the floors.
pub proof fn lemma_floor_cross(x: int, t: int, y: int, s: int)
    requires
        0 <= x,
        0 <= y,
        0 < t,
        0 < s,
        y * t <= x * s,
    ensures
        y / s <= x / t,
{
    let q = y / s;
    lemma_floor_bounds(y, s);
    lemma_floor_bounds(x, t);
    let p = x / t;
    // q * s <= y, so q * s * t <= y * t <= x * s < (p + 1) * t * s.
    assert(q < p + 1) by (nonlinear_arith)
        requires
            0 < t,
            0 < s,
            0 <= q,
            q * s <= y,
            y * t <= x * s,
            x < (p + 1) * t,
    {
        assert(q * s * t <= y * t);
        assert(x * s < (p + 1) * t * s);
        assert(q * (s * t) < (p + 1) * (s * t));
    }
}

/// A quotient is at most its numerator's other factor when the divisor
/// dominates: `a * b / c <= a` for `0 <= b <= c`.
pub proof fn lemma_scaled_floor_le(a: int, b: int, c: int)
    requires
        0 <= a,
        0 <= b <= c,
        0 < c,
    ensures
        0 <= a * b / c <= a,
{
    assert(0 <= a * b <= a * c) by (nonlinear_arith)
        requires
            0 <= a,
            0 <= b <= c,
    ;
    lemma_floor_bounds(a * b, c);
    let q = a * b / c;
    assert(q <= a) by (nonlinear_arith)
        requires
            0 < c,
            q * c <= a * b,
            a * b <= a * c,
            0 <= a,
    ;
}

/// A numerator of at most `bound * d` has a quotient of at most `bound`.
pub proof fn lemma_floor_le_bound(x: int, d: int, bound: int)
    requires
        0 <= x,
        0 < d,
        x <= bound * d,
    ensures
        x / d <= bound,
{
    lemma_floor_bounds(x, d);
    let q = x / d;
    assert(q <= bound) by (nonlinear_arith)
        requires
            0 < d,
            q * d <= x,
            x <= bound * d,
    ;
}

} // verus!
