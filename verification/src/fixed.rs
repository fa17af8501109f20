//! Fixed-point coordinates with eight fractional bits.
//!
//! A pointer position on the wire is a signed 24.8 fixed-point number. The
//! library keeps that precision: a sub-pixel coordinate is an integer count
//! of 1/256ths of a logical pixel.

use vstd::prelude::*;

verus! {

/// Number of sub-pixel units in one logical pixel.
pub const SUBPIXELS: i64 = 256;

/// The whole-pixel part of a sub-pixel coordinate, rounded toward zero.
pub open spec fn whole(v: int) -> int {
    if v >= 0 {
        v / 256
    } else {
        -((-v) / 256)
    }
}

/// `v` limited to the range of `i32`.
pub open spec fn clamp_i32(v: int) -> int {
    if v < i32::MIN {
        i32::MIN as int
    } else if v > i32::MAX {
        i32::MAX as int
    } else {
        v
    }
}

/// `v` limited to the range of `i64`.
pub open spec fn clamp_i64(v: int) -> int {
    if v < i64::MIN {
        i64::MIN as int
    } else if v > i64::MAX {
        i64::MAX as int
    } else {
        v
    }
}

/// The pixel a sub-pixel coordinate falls on: its whole part, saturated to
/// the range of `i32`.
pub open spec fn pixel_of(v: int) -> int {
    clamp_i32(whole(v))
}

/// The quotient `n / d` rounded toward zero, for a positive divisor.
pub open spec fn quotient_toward_zero(n: int, d: int) -> int
    recommends
        d > 0,
{
    if n >= 0 {
        n / d
    } else {
        -((-n) / d)
    }
}

/// The absolute value of `v`.
pub open spec fn magnitude(v: int) -> int {
    if v < 0 {
        -v
    } else {
        v
    }
}

/// Converts a whole number of logical pixels to sub-pixel units.
pub fn from_pixels(pixels: i32) -> (units: i64)
    ensures
        units == pixels * 256,
{
    (pixels as i64) * SUBPIXELS
}

/// Converts a sub-pixel coordinate to the pixel it falls on, rounding toward
/// zero and saturating at the limits of `i32`.
pub fn to_pixels(units: i64) -> (pixels: i32)
    ensures
        pixels == pixel_of(units as int),
{
    let whole_part: i64 = units / SUBPIXELS;
    if whole_part < i32::MIN as i64 {
        i32::MIN
    } else if whole_part > i32::MAX as i64 {
        i32::MAX
    } else {
        whole_part as i32
    }
}

/// Converts a wide sub-pixel quantity to a pixel count, rounding toward zero
/// and saturating at the limits of `i32`.
pub fn wide_to_pixels(units: i128) -> (pixels: i32)
    ensures
        pixels == pixel_of(units as int),
{
    let whole_part: i128 = units / 256;
    if whole_part < i32::MIN as i128 {
        i32::MIN
    } else if whole_part > i32::MAX as i128 {
        i32::MAX
    } else {
        whole_part as i32
    }
}

/// Limits a wide sub-pixel quantity to the range of `i64`.
pub fn saturate(units: i128) -> (r: i64)
    ensures
        r == clamp_i64(units as int),
{
    if units < i64::MIN as i128 {
        i64::MIN
    } else if units > i64::MAX as i128 {
        i64::MAX
    } else {
        units as i64
    }
}

} // verus!
