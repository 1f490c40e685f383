//! Three-component fixed-point vectors: the value type every other layer
//! is built on.  All operations are pure and total; each executable method
//! returns exactly what its specification-level counterpart computes.

use vstd::prelude::*;

use crate::fixed::{
    add_s, div_s, fx_add, fx_div, fx_mul, fx_neg, fx_sqrt, fx_sub, fx_wf, mul_s, neg_s, sqrt_s,
    sub_s,
};

verus! {

/// A 3-vector of fixed-point scalars.
#[derive(Clone, Copy, Debug, PartialEq, Eq, Structural)]
pub struct RaytracerVector {
    pub x: i64,
    pub y: i64,
    pub z: i64,
}

/// Well-formedness: every component is a well-formed scalar.
pub open spec fn vwf(v: RaytracerVector) -> bool {
    fx_wf(v.x) && fx_wf(v.y) && fx_wf(v.z)
}

pub open spec fn vadd_s(a: RaytracerVector, b: RaytracerVector) -> RaytracerVector {
    RaytracerVector { x: add_s(a.x, b.x), y: add_s(a.y, b.y), z: add_s(a.z, b.z) }
}

pub open spec fn vsub_s(a: RaytracerVector, b: RaytracerVector) -> RaytracerVector {
    RaytracerVector { x: sub_s(a.x, b.x), y: sub_s(a.y, b.y), z: sub_s(a.z, b.z) }
}

pub open spec fn vneg_s(a: RaytracerVector) -> RaytracerVector {
    RaytracerVector { x: neg_s(a.x), y: neg_s(a.y), z: neg_s(a.z) }
}

/// Componentwise multiplication by a scalar.
pub open spec fn vscale_s(a: RaytracerVector, s: i64) -> RaytracerVector {
    RaytracerVector { x: mul_s(a.x, s), y: mul_s(a.y, s), z: mul_s(a.z, s) }
}

/// Componentwise division by a scalar.
pub open spec fn vdiv_s(a: RaytracerVector, s: i64) -> RaytracerVector {
    RaytracerVector { x: div_s(a.x, s), y: div_s(a.y, s), z: div_s(a.z, s) }
}

/// Dot product, summed left to right.
pub open spec fn vdot_s(a: RaytracerVector, b: RaytracerVector) -> i64 {
    add_s(add_s(mul_s(a.x, b.x), mul_s(a.y, b.y)), mul_s(a.z, b.z))
}

/// Right-hand-rule cross product.
pub open spec fn vcross_s(a: RaytracerVector, b: RaytracerVector) -> RaytracerVector {
    RaytracerVector {
        x: sub_s(mul_s(a.y, b.z), mul_s(a.z, b.y)),
        y: sub_s(mul_s(a.z, b.x), mul_s(a.x, b.z)),
        z: sub_s(mul_s(a.x, b.y), mul_s(a.y, b.x)),
    }
}

/// Euclidean length: the square root of the vector's dot product with
/// itself.
pub open spec fn vlength_s(a: RaytracerVector) -> i64 {
    sqrt_s(vdot_s(a, a))
}

/// Normalization: divide by the length, or by `length / scale` when a
/// target scale is supplied.  A zero-length vector maps to the zero
/// vector (division by zero yields zero), so callers guard where that
/// matters.
pub open spec fn vnormalize_s(a: RaytracerVector, scale: Option<i64>) -> RaytracerVector {
    let len = match scale {
        Option::Some(s) => div_s(vlength_s(a), s),
        Option::None => vlength_s(a),
    };
    vdiv_s(a, len)
}

pub open spec fn vat_s(a: RaytracerVector, i: int) -> i64 {
    if i == 0 {
        a.x
    } else if i == 1 {
        a.y
    } else {
        a.z
    }
}

impl RaytracerVector {
    /// A vector with the same value in every component.
    pub fn new(value: i64) -> (r: Self)
        requires
            fx_wf(value),
        ensures
            r == (RaytracerVector { x: value, y: value, z: value }),
            vwf(r),
    {
        RaytracerVector { x: value, y: value, z: value }
    }

    /// A vector from its three components.
    pub fn new_with_data(data: [i64; 3]) -> (r: Self)
        requires
            fx_wf(data@[0]),
            fx_wf(data@[1]),
            fx_wf(data@[2]),
        ensures
            r == (RaytracerVector { x: data@[0], y: data@[1], z: data@[2] }),
            vwf(r),
    {
        RaytracerVector { x: data[0], y: data[1], z: data[2] }
    }

    /// Same as `new_with_data`; kept as a separate entry point for
    /// callers that build constant vectors.
    pub fn const_new_with_data(data: [i64; 3]) -> (r: Self)
        requires
            fx_wf(data@[0]),
            fx_wf(data@[1]),
            fx_wf(data@[2]),
        ensures
            r == (RaytracerVector { x: data@[0], y: data@[1], z: data@[2] }),
            vwf(r),
    {
        RaytracerVector { x: data[0], y: data[1], z: data[2] }
    }

    /// The component at index `i` (0, 1 or 2).
    pub fn at(&self, i: usize) -> (r: i64)
        requires
            i < 3,
        ensures
            r == vat_s(*self, i as int),
    {
        if i == 0 {
            self.x
        } else if i == 1 {
            self.y
        } else {
            self.z
        }
    }

    /// Componentwise negation.
    pub fn neg(self) -> (r: Self)
        requires
            vwf(self),
        ensures
            r == vneg_s(self),
            vwf(r),
    {
        RaytracerVector { x: fx_neg(self.x), y: fx_neg(self.y), z: fx_neg(self.z) }
    }

    /// Componentwise addition.
    pub fn add(self, rhs: Self) -> (r: Self)
        requires
            vwf(self),
            vwf(rhs),
        ensures
            r == vadd_s(self, rhs),
            vwf(r),
    {
        RaytracerVector {
            x: fx_add(self.x, rhs.x),
            y: fx_add(self.y, rhs.y),
            z: fx_add(self.z, rhs.z),
        }
    }

    /// Componentwise subtraction.
    pub fn sub(self, rhs: Self) -> (r: Self)
        requires
            vwf(self),
            vwf(rhs),
        ensures
            r == vsub_s(self, rhs),
            vwf(r),
    {
        RaytracerVector {
            x: fx_sub(self.x, rhs.x),
            y: fx_sub(self.y, rhs.y),
            z: fx_sub(self.z, rhs.z),
        }
    }

    /// Multiplication by a scalar.
    pub fn scale(self, s: i64) -> (r: Self)
        requires
            vwf(self),
            fx_wf(s),
        ensures
            r == vscale_s(self, s),
            vwf(r),
    {
        RaytracerVector { x: fx_mul(self.x, s), y: fx_mul(self.y, s), z: fx_mul(self.z, s) }
    }

    /// Division by a scalar; zero components when the scalar is zero.
    pub fn div_by(self, s: i64) -> (r: Self)
        requires
            vwf(self),
            fx_wf(s),
        ensures
            r == vdiv_s(self, s),
            vwf(r),
    {
        RaytracerVector { x: fx_div(self.x, s), y: fx_div(self.y, s), z: fx_div(self.z, s) }
    }

    /// Dot product.
    pub fn dot(self, rhs: Self) -> (r: i64)
        requires
            vwf(self),
            vwf(rhs),
        ensures
            r == vdot_s(self, rhs),
            fx_wf(r),
    {
        fx_add(
            fx_add(fx_mul(self.x, rhs.x), fx_mul(self.y, rhs.y)),
            fx_mul(self.z, rhs.z),
        )
    }

    /// Right-hand-rule cross product.
    pub fn cross(self, vector: &RaytracerVector) -> (r: Self)
        requires
            vwf(self),
            vwf(*vector),
        ensures
            r == vcross_s(self, *vector),
            vwf(r),
    {
        RaytracerVector {
            x: fx_sub(fx_mul(self.y, vector.z), fx_mul(self.z, vector.y)),
            y: fx_sub(fx_mul(self.z, vector.x), fx_mul(self.x, vector.z)),
            z: fx_sub(fx_mul(self.x, vector.y), fx_mul(self.y, vector.x)),
        }
    }

    /// Cross product of two borrowed vectors.
    pub fn cross_static(vector1: &RaytracerVector, vector2: &RaytracerVector) -> (r: Self)
        requires
            vwf(*vector1),
            vwf(*vector2),
        ensures
            r == vcross_s(*vector1, *vector2),
            vwf(r),
    {
        RaytracerVector {
            x: fx_sub(fx_mul(vector1.y, vector2.z), fx_mul(vector1.z, vector2.y)),
            y: fx_sub(fx_mul(vector1.z, vector2.x), fx_mul(vector1.x, vector2.z)),
            z: fx_sub(fx_mul(vector1.x, vector2.y), fx_mul(vector1.y, vector2.x)),
        }
    }

    /// Euclidean length.
    pub fn length(&self) -> (r: i64)
        requires
            vwf(*self),
        ensures
            r == vlength_s(*self),
            fx_wf(r),
            r >= 0,
    {
        let d: i64 = self.dot(*self);
        fx_sqrt(d)
    }

    /// Normalize to unit length, or to a target `scale`.
    pub fn normalize(&self, scale: Option<i64>) -> (r: Self)
        requires
            vwf(*self),
            (match scale {
                Option::Some(s) => fx_wf(s),
                Option::None => true,
            }),
        ensures
            r == vnormalize_s(*self, scale),
            vwf(r),
    {
        let len: i64 = match scale {
            Option::Some(s) => fx_div(self.length(), s),
            Option::None => self.length(),
        };
        self.div_by(len)
    }
}

/// A vector whose length is exactly 1.0 is unchanged by normalization,
/// so its normalized length is exactly 1.0 as well: dividing by 1.0 is
/// the identity on every well-formed component.
pub proof fn lemma_normalize_unit_vector(v: RaytracerVector)
    requires
        vwf(v),
        vlength_s(v) == crate::FX_ONE,
    ensures
        vnormalize_s(v, Option::None) == v,
        vlength_s(vnormalize_s(v, Option::None)) == crate::FX_ONE,
{
    lemma_div_by_one(v.x);
    lemma_div_by_one(v.y);
    lemma_div_by_one(v.z);
}

/// Fixed-point division by 1.0 is the identity on well-formed scalars.
proof fn lemma_div_by_one(x: i64)
    requires
        fx_wf(x),
    ensures
        div_s(x, crate::FX_ONE) == x,
{
    assert(crate::fixed::abs_i(x * (crate::FX_ONE as int)) == crate::fixed::abs_i(x as int) * (
    crate::FX_ONE as int)) by (nonlinear_arith);
    assert(crate::fixed::abs_i(x as int) * (crate::FX_ONE as int) / (crate::FX_ONE as int)
        == crate::fixed::abs_i(x as int)) by (nonlinear_arith);
}

/// The cross product is antisymmetric: swapping its arguments negates
/// every component, clamping included, for all fixed-point vectors.
pub proof fn lemma_cross_antisymmetric(a: RaytracerVector, b: RaytracerVector)
    ensures
        vcross_s(a, b) == vneg_s(vcross_s(b, a)),
{
    lemma_sub_neg(mul_s(a.y, b.z), mul_s(a.z, b.y));
    lemma_sub_neg(mul_s(a.z, b.x), mul_s(a.x, b.z));
    lemma_sub_neg(mul_s(a.x, b.y), mul_s(a.y, b.x));
}

/// Reversing a subtraction negates it, clamping included.
proof fn lemma_sub_neg(p: i64, q: i64)
    ensures
        sub_s(p, q) == neg_s(sub_s(q, p)),
{
}

} // verus!
