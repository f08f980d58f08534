//! Fixed-point scalars and two-dimensional vectors.
//!
//! Every scalar in the simulation is an `i64` counting thousandths of a
//! unit: a position coordinate of `20_000` is 20 length units, a
//! coefficient of `-500` is -0.5. Working in thousandths keeps every
//! quantity an integer, so the force formula has one exact meaning.

use vstd::prelude::*;

verus! {

/// Fixed-point denominator: scalar value 1.0 is represented as `SCALE`.
pub const SCALE: i64 = 1000;

/// Short-range cutoff of the force formula: pairs at distance
/// `MIN_DISTANCE` or closer (10 units) contribute nothing.
pub const MIN_DISTANCE: i64 = 10 * 1000;

/// Largest magnitude of a coefficient matrix entry (5.0).
pub const COEFF_LIMIT: i64 = 5 * 1000;

/// Largest base gravity scale (100.0); the smallest is zero.
pub const GRAVITY_LIMIT: i64 = 100 * 1000;

/// Bounds of the shape and collision radii (1.0 to 10.0).
pub const RADIUS_MIN: i64 = 1000;
pub const RADIUS_MAX: i64 = 10 * 1000;

/// Largest per-category particle count.
pub const COUNT_LIMIT: usize = 1000;

/// Largest total particle count: four categories of `COUNT_LIMIT` each.
pub const MAX_PARTICLES: usize = 4 * 1000;

/// Largest magnitude of an arena half-extent and hence of a position
/// coordinate (one million units).
pub const COORD_LIMIT: i64 = 1000 * 1000 * 1000;

/// Margin kept from each arena wall when spawning (5 units).
pub const SPAWN_MARGIN: i64 = 5 * 1000;

/// Largest magnitude of a single pairwise force contribution per axis:
/// `COEFF_LIMIT * GRAVITY_LIMIT * SCALE / MIN_DISTANCE^2`.
pub const CONTRIB_LIMIT: i64 = 5 * 1000;

/// Largest magnitude of a net force component:
/// `MAX_PARTICLES * CONTRIB_LIMIT`.
pub const FORCE_LIMIT: i64 = 4 * 1000 * 5 * 1000;

/// A two-dimensional fixed-point vector.
#[derive(Clone, Copy, PartialEq, Eq, Structural, Debug)]
pub struct Vec2 {
    pub x: i64,
    pub y: i64,
}

/// The mathematical value of a [`Vec2`]: a pair of unbounded integers.
pub ghost struct V2 {
    pub x: int,
    pub y: int,
}

impl View for Vec2 {
    type V = V2;

    open spec fn view(&self) -> V2 {
        V2 { x: self.x as int, y: self.y as int }
    }
}

pub open spec fn v2_zero() -> V2 {
    V2 { x: 0, y: 0 }
}

pub open spec fn v2_add(a: V2, b: V2) -> V2 {
    V2 { x: a.x + b.x, y: a.y + b.y }
}

/// Magnitude of an integer.
pub open spec fn abs_val(a: int) -> int {
    if a < 0 {
        -a
    } else {
        a
    }
}

} // verus!
