//! A recursive Whitted-style ray tracer over fixed-point arithmetic.
//!
//! Every scalar in the library is a signed 16.16 fixed-point number: an
//! `i64` holding the real value multiplied by `FX_ONE` (65536).  All
//! arithmetic is total: results are clamped into `[-FX_MAX, FX_MAX]`, and
//! the degenerate cases (division by zero, square root of a negative
//! number) return zero, so that every geometric edge case surfaces as
//! "no intersection" rather than as a fault.

use vstd::prelude::*;

pub mod fixed;
pub mod geometry;
pub mod lights;
pub mod materials;
pub mod scene;
pub mod shapes;

verus! {

/// Raw fixed-point representation of 1.0.
pub const FX_ONE: i64 = 65536;

/// Raw fixed-point representation of 2.0.
pub const FX_TWO: i64 = 131072;

/// Raw fixed-point representation of 0.5.
pub const FX_HALF: i64 = 32768;

/// Largest magnitude a fixed-point scalar may take; every operation
/// clamps its result into `[-FX_MAX, FX_MAX]`.  The bound is 2^62 - 1,
/// so the sum of two well-formed scalars still fits in an `i64`.
pub const FX_MAX: i64 = 0x3fff_ffff_ffff_ffff;

/// Shadow-acne offset and parallel-ray tolerance: 1e-3 length units,
/// rounded to the nearest representable fixed-point value.
pub const FX_EPSILON: i64 = 66;

/// Far plane: intersections beyond 1000 length units are discarded.
pub const FX_FAR: i64 = 1000 * 65536;

/// Maximum recursion depth of the ray-casting engine.
pub const MAX_DEPTH: u32 = 4;

} // verus!
