//! Scaling of raw accelerometer readings and suppression of noise at rest.

use vstd::prelude::*;

verus! {

/// Divisor that turns one raw accelerometer axis into pointer units.
pub const SENSITIVITY: i16 = 128;

/// Smallest taxicab magnitude that counts as deliberate tilt.
pub const THRESHOLD: i16 = 10;

/// A scaled motion sample `(dx, dy)`.
pub type MotionVector = (i16, i16);

/// Absolute value of a mathematical integer.
pub open spec fn abs(v: int) -> int {
    if v < 0 {
        -v
    } else {
        v
    }
}

/// Taxicab magnitude `|dx| + |dy|`.
pub open spec fn magnitude(dx: int, dy: int) -> int {
    abs(dx) + abs(dy)
}

/// `raw` divided by the sensitivity divisor, rounded toward zero.
pub open spec fn scaled(raw: int) -> int {
    if raw >= 0 {
        raw / (SENSITIVITY as int)
    } else {
        -((-raw) / (SENSITIVITY as int))
    }
}

/// What the deadzone lets through: `(0, 0)` for a sample below the threshold,
/// every other sample unchanged.
pub open spec fn filtered(dx: int, dy: int) -> (int, int) {
    if magnitude(dx, dy) < THRESHOLD {
        (0, 0)
    } else {
        (dx, dy)
    }
}

/// Scales one raw axis reading by the sensitivity divisor, rounding toward zero.
pub fn scale(raw: i16) -> (out: i16)
    ensures
        out == scaled(raw as int),
{
    raw / SENSITIVITY
}

/// Scaling rounds toward zero: the result keeps the sign of the reading, and
/// its magnitude is the number of whole divisors in the reading's magnitude.
pub proof fn scaling_rounds_toward_zero(raw: int)
    ensures
        raw >= 0 ==> scaled(raw) >= 0,
        raw <= 0 ==> scaled(raw) <= 0,
        abs(scaled(raw)) * SENSITIVITY <= abs(raw) < (abs(scaled(raw)) + 1) * SENSITIVITY,
{
}

/// Deadzone filter for scaled motion samples.
pub struct MotionFilter;

impl MotionFilter {
    /// Replaces a sample whose taxicab magnitude is below the threshold by
    /// `(0, 0)` and passes every other sample through unchanged.
    pub fn filter(dx: i16, dy: i16) -> (out: MotionVector)
        ensures
            (out.0 as int, out.1 as int) == filtered(dx as int, dy as int),
            magnitude(dx as int, dy as int) < THRESHOLD ==> out == (0i16, 0i16),
            magnitude(dx as int, dy as int) >= THRESHOLD ==> out == (dx, dy),
    {
        let ax: i32 = if dx < 0 { -(dx as i32) } else { dx as i32 };
        let ay: i32 = if dy < 0 { -(dy as i32) } else { dy as i32 };
        if ax + ay < THRESHOLD as i32 {
            (0, 0)
        } else {
            (dx, dy)
        }
    }
}

} // verus!
