//! The integer units in which the simulation counts length, speed and time.
use vstd::prelude::*;

verus! {

/// Position units in one pixel.
pub const UNITS_PER_PIXEL: i64 = 3600;

/// Velocity units in one pixel per second.
pub const VELOCITY_UNITS_PER_PIXEL_PER_SECOND: i64 = 30;

/// Fixed simulation steps in one second.
pub const STEPS_PER_SECOND: u32 = 120;

/// A point or an extent in the plane, in position units.
#[derive(Clone, Copy, Debug, PartialEq, Eq, Structural)]
pub struct Vec2 {
    pub x: i64,
    pub y: i64,
}

/// The length of `px` whole pixels, as a mathematical integer.
pub open spec fn px(px: int) -> int {
    px * UNITS_PER_PIXEL
}

/// The length of `px` whole pixels in position units.
pub fn pixels(px: u32) -> (units: i64)
    ensures
        units == self::px(px as int),
        0 <= units <= 15_461_882_262_000,
{
    let wide: i64 = px as i64;
    wide * UNITS_PER_PIXEL
}

/// `value` limited to the interval from `low` to `high`.
pub open spec fn clamp(value: int, low: int, high: int) -> int {
    if value < low {
        low
    } else if value > high {
        high
    } else {
        value
    }
}

/// The larger of two integers.
pub open spec fn max(a: int, b: int) -> int {
    if a >= b {
        a
    } else {
        b
    }
}

/// The smaller of two integers.
pub open spec fn min(a: int, b: int) -> int {
    if a <= b {
        a
    } else {
        b
    }
}

} // verus!
