use vstd::prelude::*;

verus! {

/// Coordinates saturate at this magnitude (in milli-pixels), far beyond any
/// canvas: particles may drift off-screen forever, but their coordinates stay
/// well inside the machine integer range.
pub const COORD_LIMIT_MILLI: i64 = 1_000_000_000_000;

/// A 2D vector in milli-pixel units (1 unit = 0.001 pixel).
#[derive(Clone, Copy, Debug, PartialEq, Eq, Structural)]
pub struct Vec2 {
    pub x: i64,
    pub y: i64,
}

/// `v` pulled into `[lo, hi]`.
pub open spec fn clamp_int(v: int, lo: int, hi: int) -> int {
    if v < lo {
        lo
    } else if v > hi {
        hi
    } else {
        v
    }
}

/// Clamp `v` to the interval `[lo, hi]`.
pub fn clamp_i64(v: i64, lo: i64, hi: i64) -> (r: i64)
    requires
        lo <= hi,
    ensures
        r == clamp_int(v as int, lo as int, hi as int),
{
    if v < lo {
        lo
    } else if v > hi {
        hi
    } else {
        v
    }
}

/// Add a displacement to a coordinate, saturating at the coordinate limit.
pub fn add_clamped(p: i64, d: i64) -> (r: i64)
    requires
        -COORD_LIMIT_MILLI <= p <= COORD_LIMIT_MILLI,
        -COORD_LIMIT_MILLI <= d <= COORD_LIMIT_MILLI,
    ensures
        r == clamp_int(p + d, -COORD_LIMIT_MILLI as int, COORD_LIMIT_MILLI as int),
        -COORD_LIMIT_MILLI <= r <= COORD_LIMIT_MILLI,
{
    clamp_i64(p + d, -COORD_LIMIT_MILLI, COORD_LIMIT_MILLI)
}

} // verus!
