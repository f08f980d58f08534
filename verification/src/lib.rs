//! A two-dimensional "particle life" simulation core.
//!
//! A configurable number of particles in four categories move inside a
//! bounded rectangular arena, exerting pairwise attractive or repulsive
//! forces on each other according to a 4x4 signed coefficient matrix.
//! All scalars are fixed-point values: an `i64` counts thousandths of a
//! length unit (see [`units::SCALE`]), so the arithmetic of the force
//! formula is exact and fully specified.

pub mod category;
pub mod force;
pub mod integrate;
pub mod matrix;
pub mod particle;
pub mod session;
pub mod sqrt;
pub mod units;

use vstd::prelude::*;

verus! {

} // verus!
