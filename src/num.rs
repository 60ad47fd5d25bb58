//! Integer facts shared by the component types: ranges, truncating
//! division and the two's-complement reinterpretations that `as` performs
//! between `i32` and `u32`.

use vstd::prelude::*;

verus! {

/// `v` is representable as an `i32`.
pub open spec fn fits_i32(v: int) -> bool {
    i32::MIN <= v <= i32::MAX
}

/// `v` is representable as a `u32`.
pub open spec fn fits_u32(v: int) -> bool {
    0 <= v <= u32::MAX
}

/// Division rounded toward zero, as Rust's `/` on signed integers.
pub open spec fn trunc_div(a: int, b: int) -> int {
    let q = abs_int(a) / abs_int(b);
    if (a >= 0) == (b > 0) {
        q
    } else {
        -q
    }
}

/// Absolute value of a mathematical integer.
pub open spec fn abs_int(v: int) -> int {
    if v >= 0 {
        v
    } else {
        -v
    }
}

/// The `u32` with the same bit pattern as the `i32` value `v`.
pub open spec fn bits_as_u32(v: i32) -> u32 {
    if v >= 0 {
        v as u32
    } else {
        (v + 0x1_0000_0000) as u32
    }
}

/// The `i32` with the same bit pattern as the `u32` value `v`.
pub open spec fn bits_as_i32(v: u32) -> i32 {
    if v <= i32::MAX {
        v as i32
    } else {
        (v - 0x1_0000_0000) as i32
    }
}

/// Reinterprets the bits of an `i32` as a `u32` (what `v as u32` does).
pub fn i32_to_u32(v: i32) -> (r: u32)
    ensures
        r == bits_as_u32(v),
        v >= 0 ==> r == v,
        v < 0 ==> r == v + 0x1_0000_0000,
{
    if v >= 0 {
        v as u32
    } else {
        ((v as i64) + 0x1_0000_0000i64) as u32
    }
}

/// Reinterprets the bits of a `u32` as an `i32` (what `v as i32` does).
pub fn u32_to_i32(v: u32) -> (r: i32)
    ensures
        r == bits_as_i32(v),
        v <= i32::MAX ==> r == v,
        v > i32::MAX ==> r == v - 0x1_0000_0000,
{
    if v <= i32::MAX as u32 {
        v as i32
    } else {
        ((v as i64) - 0x1_0000_0000i64) as i32
    }
}

/// Signed division rounded toward zero.
pub fn div_i32(a: i32, b: i32) -> (r: i32)
    requires
        b != 0,
        !(a == i32::MIN && b == -1),
    ensures
        r == trunc_div(a as int, b as int),
{
    let ua: i64 = if a >= 0 { a as i64 } else { -(a as i64) };
    let ub: i64 = if b >= 0 { b as i64 } else { -(b as i64) };
    let q: i64 = ua / ub;
    proof {
        assert(0 <= q <= ua) by (nonlinear_arith)
            requires ua >= 0, ub >= 1, q == ua / ub;
        assert(ub >= 2 ==> 2 * q <= ua) by (nonlinear_arith)
            requires ua >= 0, ub >= 1, q == ua / ub;
    }
    if (a >= 0) == (b > 0) {
        q as i32
    } else {
        (-q) as i32
    }
}

} // verus!
