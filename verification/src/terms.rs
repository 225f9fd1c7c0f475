//! The terms of the series Sn = sum of 1/(i^2 - 1) for i = 2..=n, modelled by
//! their exact integer denominators.
//!
//! Every accumulation strategy divides 1.0 by these denominators and adds the
//! quotients in some order; which multiset of terms is summed is decided here,
//! exactly, in integers. The denominator i^2 - 1 is at least 3 for every
//! i >= 2, so no term ever divides by zero.

use vstd::prelude::*;

verus! {

/// Denominator of the series term at index i: i^2 - 1.
pub open spec fn term_denom(i: int) -> int {
    i * i - 1
}

/// How many terms the series has for upper bound n: one for each index
/// i in 2..=n, so n - 1 terms when n >= 2 and none otherwise.
pub open spec fn term_count(n: int) -> nat {
    if n < 2 {
        0
    } else {
        (n - 1) as nat
    }
}

/// The term denominators in ascending order of i: i = 2, 3, ..., n.
pub open spec fn denominators_ascending(n: int) -> Seq<int> {
    Seq::new(term_count(n), |k: int| term_denom(k + 2))
}

/// The term denominators in descending order of i: i = n, n - 1, ..., 2.
pub open spec fn denominators_descending(n: int) -> Seq<int> {
    denominators_ascending(n).reverse()
}

/// Ascending and descending accumulation draw on the identical multiset of
/// term denominators: one order is exactly the reverse of the other, so only
/// the order of the floating-point additions can differ, never the set of
/// terms summed.
pub proof fn lemma_orders_same_terms(n: int)
    ensures
        denominators_descending(n) == denominators_ascending(n).reverse(),
        denominators_descending(n).to_multiset() == denominators_ascending(n).to_multiset(),
        denominators_descending(n).len() == denominators_ascending(n).len(),
{
    denominators_ascending(n).lemma_reverse_to_multiset();
    assert(denominators_descending(n).to_multiset() =~= denominators_ascending(n).to_multiset());
}

/// The denominators strictly grow with the index, so the terms 1/(i^2 - 1)
/// strictly shrink in magnitude as i grows: ascending accumulation adds the
/// large terms first, descending accumulation adds them last.
pub proof fn lemma_denominators_strictly_increase(n: int, j: int, k: int)
    requires
        0 <= j < k < denominators_ascending(n).len(),
    ensures
        denominators_ascending(n)[j] < denominators_ascending(n)[k],
{
    assert((j + 2) * (j + 2) < (k + 2) * (k + 2)) by (nonlinear_arith)
        requires
            0 <= j < k,
    ;
}

/// Every denominator is at least 3, so no term of the series ever divides by
/// zero.
pub proof fn lemma_denominators_at_least_three(n: int, k: int)
    requires
        0 <= k < denominators_ascending(n).len(),
    ensures
        denominators_ascending(n)[k] >= 3,
{
    assert((k + 2) * (k + 2) >= 4) by (nonlinear_arith)
        requires
            k >= 0,
    ;
}

/// The exact denominator i^2 - 1 of the term at index i, computed without
/// overflow for every i that fits in 32 bits.
pub fn term_denominator(i: u32) -> (r: u64)
    requires
        2 <= i,
    ensures
        r as int == term_denom(i as int),
        r >= 3,
{
    let w: u64 = i as u64;
    proof {
        assert(w * w <= 0xffff_ffff * 0xffff_ffff) by (nonlinear_arith)
            requires
                w <= 0xffff_ffff,
        ;
        assert(w * w >= 4) by (nonlinear_arith)
            requires
                w >= 2,
        ;
    }
    w * w - 1
}

/// The term denominators for upper bound n in ascending order of i, as exact
/// 64-bit integers.
pub fn term_denominators_ascending(n: u32) -> (r: Vec<u64>)
    ensures
        r@.map_values(|d: u64| d as int) == denominators_ascending(n as int),
        r@.len() == term_count(n as int),
{
    let mut v: Vec<u64> = Vec::new();
    if n < 2 {
        proof {
            assert(v@.map_values(|d: u64| d as int) =~= denominators_ascending(n as int));
        }
        return v;
    }
    let mut i: u64 = 2;
    while i <= n as u64
        invariant
            2 <= i <= n as u64 + 1,
            n >= 2,
            v@.len() == i - 2,
            forall|k: int| 0 <= k < v@.len() ==> v@[k] as int == term_denom(k + 2),
        decreases n as u64 + 1 - i,
    {
        let d = term_denominator(i as u32);
        v.push(d);
        i = i + 1;
    }
    proof {
        assert(v@.map_values(|d: u64| d as int) =~= denominators_ascending(n as int));
    }
    v
}

/// The term denominators for upper bound n in descending order of i, as exact
/// 64-bit integers.
pub fn term_denominators_descending(n: u32) -> (r: Vec<u64>)
    ensures
        r@.map_values(|d: u64| d as int) == denominators_descending(n as int),
        r@.len() == term_count(n as int),
{
    let mut v: Vec<u64> = Vec::new();
    if n < 2 {
        proof {
            assert(v@.map_values(|d: u64| d as int) =~= denominators_descending(n as int));
        }
        return v;
    }
    let mut i: u64 = n as u64;
    while i >= 2
        invariant
            1 <= i <= n as u64,
            n >= 2,
            v@.len() == n as u64 - i,
            forall|k: int| 0 <= k < v@.len() ==> v@[k] as int == term_denom(n as int - k),
        decreases i,
    {
        let d = term_denominator(i as u32);
        v.push(d);
        i = i - 1;
    }
    proof {
        let m = v@.map_values(|d: u64| d as int);
        let desc = denominators_descending(n as int);
        assert forall|k: int| 0 <= k < desc.len() implies m[k] == desc[k] by {
            assert(desc[k] == denominators_ascending(n as int)[term_count(n as int) - 1 - k]);
        }
        assert(m =~= desc);
    }
    v
}

} // verus!
