//! The closed-form reference value of the series, as an exact fraction.
//!
//! Partial-fraction decomposition gives 1/(i^2 - 1) = 0.5 * (1/(i-1) - 1/(i+1)),
//! and the sum telescopes to Sn = 0.5 * (1.5 - 1/n - 1/(n+1)). Over the common
//! denominator 4n(n+1) that is the fraction (3n^2 - n - 2) / (4n(n+1)). This
//! module states the closed form in exact integers, proves by induction that
//! it equals the exact sum of the series, and computes it in executable code
//! without overflow. Only the final promotion of the fraction to double
//! precision, for error measurement, happens outside the verified core.

use vstd::prelude::*;
use crate::terms::term_denom;

verus! {

/// Numerator of the closed form: 3n^2 - n - 2.
pub open spec fn closed_form_num(n: int) -> int {
    3 * n * n - n - 2
}

/// Denominator of the closed form: 4n(n + 1).
pub open spec fn closed_form_den(n: int) -> int {
    4 * n * (n + 1)
}

/// Numerator of the exact partial sum of 1/(i^2 - 1) for i = 2..=n, built one
/// term at a time: adding 1/d to num/den gives (num * d + den) / (den * d).
pub open spec fn partial_sum_num(n: int) -> int
    decreases n,
{
    if n < 2 {
        0
    } else {
        partial_sum_num(n - 1) * term_denom(n) + partial_sum_den(n - 1)
    }
}

/// Denominator of the exact partial sum of 1/(i^2 - 1) for i = 2..=n.
pub open spec fn partial_sum_den(n: int) -> int
    decreases n,
{
    if n < 2 {
        1
    } else {
        partial_sum_den(n - 1) * term_denom(n)
    }
}

/// The exact partial sum is a genuine fraction: its denominator is positive.
pub proof fn lemma_partial_sum_den_positive(n: int)
    ensures
        partial_sum_den(n) > 0,
    decreases n,
{
    if n >= 2 {
        lemma_partial_sum_den_positive(n - 1);
        assert(n * n - 1 >= 3) by (nonlinear_arith)
            requires
                n >= 2,
        ;
        assert(partial_sum_den(n - 1) * term_denom(n) > 0) by (nonlinear_arith)
            requires
                partial_sum_den(n - 1) > 0,
                term_denom(n) >= 3,
        ;
    }
}

/// Telescoping identity: for every n >= 2 the exact sum of the series equals
/// the closed form (3n^2 - n - 2) / (4n(n + 1)), stated as the
/// cross-multiplied integer equality of the two fractions.
pub proof fn lemma_closed_form_is_series_sum(n: int)
    requires
        n >= 2,
    ensures
        partial_sum_num(n) * closed_form_den(n) == closed_form_num(n) * partial_sum_den(n),
    decreases n,
{
    if n == 2 {
        assert(partial_sum_num(1) == 0);
        assert(partial_sum_den(1) == 1);
        assert(term_denom(2) == 3);
        assert(partial_sum_num(n) == 1);
        assert(partial_sum_den(n) == 3);
        assert(1 * closed_form_den(n) == closed_form_num(n) * 3) by (nonlinear_arith)
            requires
                n == 2,
                closed_form_den(n) == 4 * n * (n + 1),
                closed_form_num(n) == 3 * n * n - n - 2,
        ;
    } else {
        lemma_closed_form_is_series_sum(n - 1);
        let a = partial_sum_num(n - 1);
        let b = partial_sum_den(n - 1);
        let d = term_denom(n);
        assert(partial_sum_num(n) == a * d + b);
        assert(partial_sum_den(n) == b * d);
        assert(a * (4 * (n - 1) * n) == (3 * (n - 1) * (n - 1) - (n - 1) - 2) * b);
        assert((a * d + b) * (4 * n * (n + 1)) == (3 * n * n - n - 2) * (b * d))
            by (nonlinear_arith)
            requires
                n >= 3,
                d == n * n - 1,
                a * (4 * (n - 1) * n) == (3 * (n - 1) * (n - 1) - (n - 1) - 2) * b,
        ;
    }
}

/// The closed form is exactly the textbook formula 0.5 * (1.5 - 1/n - 1/(n+1)):
/// over the common denominator 4n(n + 1), that expression has numerator
/// 3n(n + 1) - 2(n + 1) - 2n, which equals 3n^2 - n - 2.
pub proof fn lemma_closed_form_matches_formula(n: int)
    requires
        n >= 2,
    ensures
        closed_form_num(n) == 3 * n * (n + 1) - 2 * (n + 1) - 2 * n,
        closed_form_den(n) == 4 * n * (n + 1),
{
    assert(3 * n * (n + 1) - 2 * (n + 1) - 2 * n == 3 * n * n - n - 2) by (nonlinear_arith);
}

/// The closed-form reference value for upper bound n as an exact fraction
/// (numerator, denominator). 128-bit arithmetic keeps it exact for every
/// 32-bit n.
pub fn closed_form_fraction(n: u32) -> (r: (u128, u128))
    requires
        n >= 2,
    ensures
        r.0 as int == closed_form_num(n as int),
        r.1 as int == closed_form_den(n as int),
        r.1 > 0,
{
    let w: u128 = n as u128;
    proof {
        assert(w * w <= 0xffff_ffff * 0xffff_ffff && w * w >= w + w) by (nonlinear_arith)
            requires
                2 <= w <= 0xffff_ffff,
        ;
        assert(4 * w * (w + 1) <= 8 * 0x1_0000_0000 * 0x1_0000_0000 && 4 * w * (w + 1) > 0)
            by (nonlinear_arith)
            requires
                2 <= w <= 0xffff_ffff,
        ;
    }
    let num: u128 = 3 * (w * w) - w - 2;
    let den: u128 = 4 * w * (w + 1);
    proof {
        assert(3 * (w * w) - w - 2 == 3 * w * w - w - 2) by (nonlinear_arith);
    }
    (num, den)
}

} // verus!
