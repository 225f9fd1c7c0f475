//! Integer overflow policies demonstrated side by side: wrapping addition
//! silently reduces the mathematical sum into the representable range, and
//! checked addition signals overflow with an absent result instead.

use vstd::prelude::*;

verus! {

/// Signed 32-bit addition under the wrapping policy: the mathematical sum is
/// reduced modulo 2^32 into the representable range. In particular,
/// `i32::MAX` plus 1 wraps to `i32::MIN`.
pub fn wrapping_add_i32(a: i32, b: i32) -> (r: i32)
    ensures
        i32::MIN <= a + b <= i32::MAX ==> r == a + b,
        a + b > i32::MAX ==> r == a + b - 0x1_0000_0000,
        a + b < i32::MIN ==> r == a + b + 0x1_0000_0000,
{
    a.wrapping_add(b)
}

/// Signed 32-bit addition under the checked policy: the exact sum when it is
/// representable, and `None` (never a wrapped number) when it is not.
pub fn checked_add_i32(a: i32, b: i32) -> (r: Option<i32>)
    ensures
        i32::MIN <= a + b <= i32::MAX ==> r == Some((a + b) as i32),
        a + b > i32::MAX || a + b < i32::MIN ==> r is None,
{
    a.checked_add(b)
}

/// Unsigned 32-bit addition under the wrapping policy: the mathematical sum
/// is reduced modulo 2^32. In particular, `u32::MAX` plus 1 wraps to 0.
pub fn wrapping_add_u32(a: u32, b: u32) -> (r: u32)
    ensures
        a + b <= u32::MAX ==> r == a + b,
        a + b > u32::MAX ==> r == a + b - 0x1_0000_0000,
{
    a.wrapping_add(b)
}

} // verus!
