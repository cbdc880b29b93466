//! Saturating arithmetic on the signed integer widths the game uses.

use vstd::prelude::*;

verus! {

/// `v` clamped to `lo..=hi`.
pub open spec fn clamp_int(v: int, lo: int, hi: int) -> int {
    if v < lo { lo } else if v > hi { hi } else { v }
}

/// `a + b`, held within the range of `i8`.
pub fn sat_add_i8(a: i8, b: i8) -> (r: i8)
    ensures
        r == clamp_int(a + b, i8::MIN as int, i8::MAX as int),
{
    let s = a as i16 + b as i16;
    if s > 127 { 127 } else if s < -128 { -128 } else { s as i8 }
}

/// `a - b`, held within the range of `i8`.
pub fn sat_sub_i8(a: i8, b: i8) -> (r: i8)
    ensures
        r == clamp_int(a - b, i8::MIN as int, i8::MAX as int),
{
    let s = a as i16 - b as i16;
    if s > 127 { 127 } else if s < -128 { -128 } else { s as i8 }
}

/// `a + b`, held within the range of `i32`.
pub fn sat_add_i32(a: i32, b: i32) -> (r: i32)
    ensures
        r == clamp_int(a + b, i32::MIN as int, i32::MAX as int),
{
    let s = a as i64 + b as i64;
    if s > i32::MAX as i64 { i32::MAX } else if s < i32::MIN as i64 { i32::MIN } else { s as i32 }
}

/// `a - b`, held within the range of `i32`.
pub fn sat_sub_i32(a: i32, b: i32) -> (r: i32)
    ensures
        r == clamp_int(a - b, i32::MIN as int, i32::MAX as int),
{
    let s = a as i64 - b as i64;
    if s > i32::MAX as i64 { i32::MAX } else if s < i32::MIN as i64 { i32::MIN } else { s as i32 }
}

/// Integer division rounding toward zero, as machine division does.
pub open spec fn trunc_div(a: int, b: int) -> int {
    if a >= 0 { a / b } else { -((-a) / b) }
}

/// `a / b` rounded toward zero.
pub fn div_trunc(a: i32, b: i32) -> (r: i32)
    requires
        b > 0,
    ensures
        r == trunc_div(a as int, b as int),
{
    if a >= 0 {
        a / b
    } else {
        let na: i64 = -(a as i64);
        let q: i64 = na / (b as i64);
        (-q) as i32
    }
}

} // verus!
