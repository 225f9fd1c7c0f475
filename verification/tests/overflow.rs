use series_diag::overflow::{checked_add_i32, wrapping_add_i32, wrapping_add_u32};

#[test]
fn signed_max_wraps_to_min() {
    assert_eq!(wrapping_add_i32(i32::MAX, 1), i32::MIN);
    assert_eq!(wrapping_add_i32(2147483647, 1), -2147483648);
}

#[test]
fn signed_max_checked_add_is_absent() {
    assert_eq!(checked_add_i32(i32::MAX, 1), None);
    assert_eq!(checked_add_i32(i32::MIN, -1), None);
}

#[test]
fn unsigned_max_wraps_to_zero() {
    assert_eq!(wrapping_add_u32(u32::MAX, 1), 0);
    assert_eq!(wrapping_add_u32(u32::MAX, 5), 4);
}

#[test]
fn in_range_additions_are_exact() {
    assert_eq!(wrapping_add_i32(2, 3), 5);
    assert_eq!(wrapping_add_i32(-7, 3), -4);
    assert_eq!(wrapping_add_i32(i32::MIN, 1), i32::MIN + 1);
    assert_eq!(checked_add_i32(2, 3), Some(5));
    assert_eq!(checked_add_i32(i32::MAX, 0), Some(i32::MAX));
    assert_eq!(wrapping_add_u32(2, 3), 5);
    assert_eq!(wrapping_add_u32(0, u32::MAX), u32::MAX);
}

#[test]
fn signed_min_wraps_back_to_max() {
    assert_eq!(wrapping_add_i32(i32::MIN, -1), i32::MAX);
}
