//! Integer helpers for clamping and for angles measured in degrees.

use vstd::prelude::*;

verus! {

/// The value of `input` clamped into `[min, max]`, with the lower bound
/// winning when the bounds cross.
pub open spec fn clamped(min: int, max: int, input: int) -> int {
    if input < min {
        min
    } else if input > max {
        max
    } else {
        input
    }
}

/// The representative of `degrees` in `[0, 360)`.
pub open spec fn sanitized_degrees(degrees: int) -> int {
    degrees % 360
}

/// Clamps an integer between two integers.
///
/// Returns `input` when `min <= input <= max`, and either `min` or `max`
/// otherwise.
pub fn clamp_int(min: i32, max: i32, input: i32) -> (out: i32)
    ensures
        out == clamped(min as int, max as int, input as int),
{
    if input < min {
        min
    } else if input > max {
        max
    } else {
        input
    }
}

/// Sanitizes a degree measure as an integer.
///
/// Returns the equivalent degree measure between 0 (inclusive) and 360
/// (exclusive).
pub fn sanitize_degrees_int(degrees: i32) -> (out: i32)
    ensures
        out == sanitized_degrees(degrees as int),
        0 <= out < 360,
{
    let mut degrees: i32 = degrees % 360;
    if degrees < 0 {
        degrees = degrees + 360;
    }
    degrees
}

} // verus!
