//! Arithmetic that stops at the ends of its range instead of overflowing.

use vstd::prelude::*;

verus! {

/// `value` moved into the range from `low` to `high`.
pub open spec fn clamped(value: int, low: int, high: int) -> int {
    if value < low {
        low
    } else if value > high {
        high
    } else {
        value
    }
}

pub open spec fn smaller_of(a: int, b: int) -> int {
    if a <= b {
        a
    } else {
        b
    }
}

pub open spec fn larger_of(a: int, b: int) -> int {
    if a >= b {
        a
    } else {
        b
    }
}

/// `value` stopped at the ends of `i64`.
pub open spec fn clamped_i64(value: int) -> int {
    clamped(value, i64::MIN as int, i64::MAX as int)
}

/// `value` stopped at the ends of `i32`.
pub open spec fn clamped_i32(value: int) -> int {
    clamped(value, i32::MIN as int, i32::MAX as int)
}

pub fn saturating_add_i64(a: i64, b: i64) -> (sum: i64)
    ensures
        sum == clamped_i64(a + b),
{
    match a.checked_add(b) {
        Some(sum) => sum,
        None => if b > 0 {
            i64::MAX
        } else {
            i64::MIN
        },
    }
}

pub fn saturating_sub_i64(a: i64, b: i64) -> (difference: i64)
    ensures
        difference == clamped_i64(a - b),
{
    match a.checked_sub(b) {
        Some(difference) => difference,
        None => if b < 0 {
            i64::MAX
        } else {
            i64::MIN
        },
    }
}

pub fn saturating_add_i32(a: i32, b: i32) -> (sum: i32)
    ensures
        sum == clamped_i32(a + b),
{
    match a.checked_add(b) {
        Some(sum) => sum,
        None => if b > 0 {
            i32::MAX
        } else {
            i32::MIN
        },
    }
}

pub fn saturating_sub_i32(a: i32, b: i32) -> (difference: i32)
    ensures
        difference == clamped_i32(a - b),
{
    match a.checked_sub(b) {
        Some(difference) => difference,
        None => if b < 0 {
            i32::MAX
        } else {
            i32::MIN
        },
    }
}

pub fn clamp_to_i32(value: i64) -> (clamped: i32)
    ensures
        clamped == clamped_i32(value as int),
{
    if value < i32::MIN as i64 {
        i32::MIN
    } else if value > i32::MAX as i64 {
        i32::MAX
    } else {
        value as i32
    }
}

/// The place reached by stepping from one place of a ring to another.
pub fn wrapped_index(index: usize, direction: isize, count: usize) -> (place: usize)
    requires
        index < count,
    ensures
        place == (index + direction) % (count as int),
        place < count,
{
    let sum: i128 = index as i128 + direction as i128;
    match sum.checked_rem_euclid(count as i128) {
        Some(place) => place as usize,
        None => index,
    }
}

} // verus!
