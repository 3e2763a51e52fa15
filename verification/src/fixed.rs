//! Fixed-point arithmetic base of the flight model.
//!
//! Every physical quantity in the core (throttle percentage, speed in m/s,
//! turn rate in radians per frame, drag coefficients, masses, positions) is
//! an `i64` holding the quantity multiplied by [`SCALE`], i.e. with seven
//! decimal fraction digits.  This scale represents every tuning constant of
//! the aircraft catalog exactly (for example a thrust multiplier of
//! `4.9090909` is the integer `49_090_909`).
//!
//! The `*_LIMIT` constants bound each quantity to a range far beyond anything
//! reachable in play; they exist only so that every intermediate product of
//! the flight-model formulas provably fits in the machine integers.

use vstd::prelude::*;

verus! {

/// Fixed-point units per whole unit: seven decimal fraction digits.
pub const SCALE: i64 = 10_000_000;

/// Largest representable speed, 100 000 m/s.
pub const SPEED_LIMIT: i64 = 1_000_000_000_000;

/// Largest turn-rate parameter, 100 radians per frame.
pub const RATE_LIMIT: i64 = 1_000_000_000;

/// Largest turn-flip-point speed, 100 000 m/s.
pub const FLIP_LIMIT: i64 = 1_000_000_000_000;

/// Largest single drag factor (base, airbrake or turn multiplier), 100.
pub const DRAG_FACTOR_LIMIT: i64 = 1_000_000_000;

/// Largest combined drag coefficient:
/// `(2 * DRAG_FACTOR_LIMIT) * DRAG_FACTOR_LIMIT / SCALE`.
pub const COEFF_LIMIT: i64 = 200_000_000_000;

/// Largest wing reference area, 10 000 square metres.
pub const AREA_LIMIT: i64 = 100_000_000_000;

/// Smallest mass, 1 kg.
pub const MASS_MIN: i64 = 10_000_000;

/// Largest mass, 1 000 000 kg.
pub const MASS_LIMIT: i64 = 10_000_000_000_000;

/// Largest thrust multiplier, 100.
pub const MULT_LIMIT: i64 = 1_000_000_000;

/// Magnitude at which the drag force saturates (far beyond any force a
/// well-formed profile can produce at representable speeds).
pub const FORCE_LIMIT: i64 = 1_000_000_000_000_000_000;

/// Magnitude at which a net deceleration saturates.
pub const DECEL_LIMIT: i64 = 1_000_000_000_000_000_000;

/// Largest magnitude of a position coordinate.
pub const POS_LIMIT: i64 = 1_000_000_000_000_000_000;

/// Magnitude at which the accumulated rotation saturates.
pub const ROT_LIMIT: i64 = 1_000_000_000_000_000_000;

/// Largest viewport extent accepted for screen wrap-around.
pub const BOUND_LIMIT: i64 = 1_000_000_000_000_000;

/// Largest frame duration, in milliseconds.
pub const DT_LIMIT: u64 = 1_000_000_000;

/// Margin past the viewport edge at which a position wraps to the opposite
/// edge, 30 world units: the sprite fully exits before reappearing.
pub const EDGE_BOUNDS: i64 = 30 * SCALE;

/// Throttle percentage ceiling: the 110% overboost band.
pub const THROTTLE_MAX: i64 = 110 * SCALE;

/// Nominal full throttle, 100%: the value overboost snaps back to.
pub const THROTTLE_FULL: i64 = 100 * SCALE;

/// `x` clamped into `[lo, hi]`.
pub open spec fn spec_clamp(x: int, lo: int, hi: int) -> int {
    if x < lo {
        lo
    } else if x > hi {
        hi
    } else {
        x
    }
}

/// Division truncating toward zero (the sign-magnitude form used by the
/// flight model wherever a dividend may be negative).
pub open spec fn tdiv(a: int, b: int) -> int {
    if a >= 0 {
        a / b
    } else {
        -((-a) / b)
    }
}

/// Clamp a fixed-point value into `[lo, hi]`.
pub fn clamp_i64(x: i64, lo: i64, hi: i64) -> (r: i64)
    requires
        lo <= hi,
    ensures
        r == spec_clamp(x as int, lo as int, hi as int),
{
    if x < lo {
        lo
    } else if x > hi {
        hi
    } else {
        x
    }
}

} // verus!
