//! Geometric primitives: a closed sum type over spheres, axis-aligned
//! boxes and infinite planes, each answering ray intersection, surface
//! normal and material queries.
//!
//! `ray_intersect` returns the smallest non-negative parametric distance
//! along the ray, or `None`.  Degenerate numeric cases (a ray parallel to
//! a plane or to a box slab) are decided explicitly rather than through
//! division by zero.

use vstd::prelude::*;

use crate::fixed::{
    abs_s, add_s, div_s, fx_abs, fx_add, fx_div, fx_mul, fx_sqrt, fx_sub, fx_wf, max_s, min_s,
    mul_s, sqrt_s, sub_s,
};
use crate::geometry::{vdot_s, vnormalize_s, vsub_s, vwf, RaytracerVector};
use crate::materials::{mat_wf, Material};
use crate::{FX_EPSILON, FX_MAX, FX_ONE};

verus! {

// ---------------------------------------------------------------- Sphere
#[derive(Clone, Copy, Debug, PartialEq, Eq, Structural)]
pub struct Sphere {
    pub center: RaytracerVector,
    pub radius: i64,
    pub material: Material,
}

pub open spec fn sphere_wf(s: Sphere) -> bool {
    vwf(s.center) && fx_wf(s.radius) && mat_wf(s.material)
}

/// `tca`: distance along the ray to the foot of the perpendicular from
/// the sphere's center.
pub open spec fn sphere_tca_s(s: Sphere, origin: RaytracerVector, direction: RaytracerVector) -> i64 {
    vdot_s(vsub_s(s.center, origin), direction)
}

/// Squared distance from the sphere's center to the ray.
pub open spec fn sphere_d2_s(s: Sphere, origin: RaytracerVector, direction: RaytracerVector) -> i64 {
    let l = vsub_s(s.center, origin);
    sub_s(vdot_s(l, l), mul_s(sphere_tca_s(s, origin, direction), sphere_tca_s(s, origin, direction)))
}

/// Squared radius.
pub open spec fn sphere_r2_s(s: Sphere) -> i64 {
    mul_s(s.radius, s.radius)
}

/// The classic analytic ray-sphere test: no hit when the ray passes
/// farther from the center than the radius; otherwise the nearer
/// non-negative root, the farther one when the origin is inside, and no
/// hit when the sphere lies entirely behind the origin.
pub open spec fn sphere_hit_s(
    s: Sphere,
    origin: RaytracerVector,
    direction: RaytracerVector,
) -> Option<i64> {
    let tca = sphere_tca_s(s, origin, direction);
    let d2 = sphere_d2_s(s, origin, direction);
    let r2 = sphere_r2_s(s);
    if d2 > r2 {
        Option::None
    } else {
        let thc = sqrt_s(sub_s(r2, d2));
        let t0 = sub_s(tca, thc);
        let t1 = add_s(tca, thc);
        let t = if t0 < 0 {
            t1
        } else {
            t0
        };
        if t < 0 {
            Option::None
        } else {
            Option::Some(t)
        }
    }
}

pub open spec fn sphere_normal_s(s: Sphere, hit_point: RaytracerVector) -> RaytracerVector {
    vnormalize_s(vsub_s(hit_point, s.center), Option::None)
}

impl Sphere {
    pub fn new(center: RaytracerVector, radius: i64, material: Material) -> (r: Self)
        requires
            vwf(center),
            fx_wf(radius),
            mat_wf(material),
        ensures
            r == (Sphere { center, radius, material }),
            sphere_wf(r),
    {
        Sphere { center, radius, material }
    }

    pub fn ray_intersect(&self, origin: RaytracerVector, direction: RaytracerVector) -> (r: Option<
        i64,
    >)
        requires
            sphere_wf(*self),
            vwf(origin),
            vwf(direction),
        ensures
            r == sphere_hit_s(*self, origin, direction),
            (match r {
                Option::Some(t) => fx_wf(t) && t >= 0,
                Option::None => true,
            }),
    {
        let l = self.center.sub(origin);
        let tca: i64 = l.dot(direction);
        let d2: i64 = fx_sub(l.dot(l), fx_mul(tca, tca));
        let r2: i64 = fx_mul(self.radius, self.radius);

        if d2 > r2 {
            return None;
        }

        let thc: i64 = fx_sqrt(fx_sub(r2, d2));
        let mut t0: i64 = fx_sub(tca, thc);
        let t1: i64 = fx_add(tca, thc);

        if t0 < 0 {
            t0 = t1;
        }
        if t0 < 0 {
            return None;
        }

        Some(t0)
    }

    pub fn get_material(&self) -> (r: Material)
        ensures
            r == self.material,
    {
        self.material
    }

    pub fn get_normal(&self, hit_point: RaytracerVector) -> (r: RaytracerVector)
        requires
            sphere_wf(*self),
            vwf(hit_point),
        ensures
            r == sphere_normal_s(*self, hit_point),
            vwf(r),
    {
        hit_point.sub(self.center).normalize(None)
    }
}

/// A ray that passes the sphere's center farther than the radius (the
/// squared perpendicular distance exceeds the squared radius) misses:
/// no hit is reported.
pub proof fn lemma_wide_ray_misses(s: Sphere, origin: RaytracerVector, direction: RaytracerVector)
    requires
        sphere_d2_s(s, origin, direction) > sphere_r2_s(s),
    ensures
        sphere_hit_s(s, origin, direction) is None,
{
}

/// A ray that touches a sphere exactly at the tangent point (the squared
/// center distance equals the squared radius) reports a hit: the two
/// roots coincide at `tca`, and that repeated root is returned, never
/// "no hit".
pub proof fn lemma_tangent_ray_hits(s: Sphere, origin: RaytracerVector, direction: RaytracerVector)
    requires
        sphere_d2_s(s, origin, direction) == sphere_r2_s(s),
        sphere_tca_s(s, origin, direction) >= 0,
    ensures
        sphere_hit_s(s, origin, direction) == Option::Some(sphere_tca_s(s, origin, direction)),
{
    let tca = sphere_tca_s(s, origin, direction);
    assert(sub_s(sphere_r2_s(s), sphere_d2_s(s, origin, direction)) == 0);
    assert(sqrt_s(0) == 0);
    assert(sub_s(tca, 0) == tca);
    assert(add_s(tca, 0) == tca);
}

// ------------------------------------------------------------- BoxShape
#[derive(Clone, Copy, Debug, PartialEq, Eq, Structural)]
pub struct BoxShape {
    pub max_point: RaytracerVector,
    pub min_point: RaytracerVector,
    pub material: Material,
}

pub open spec fn box_wf(b: BoxShape) -> bool {
    vwf(b.max_point) && vwf(b.min_point) && mat_wf(b.material)
}

/// Entry and exit distances of the ray through one slab (the region
/// between the two axis-aligned planes of one axis).  A ray parallel to
/// the slab is either always inside it (unbounded interval) or never.
pub open spec fn slab_s(min_c: i64, max_c: i64, origin_c: i64, direction_c: i64) -> Option<
    (i64, i64),
> {
    if direction_c != 0 {
        let inv = div_s(FX_ONE, direction_c);
        let t1 = mul_s(sub_s(min_c, origin_c), inv);
        let t2 = mul_s(sub_s(max_c, origin_c), inv);
        Option::Some((min_s(t1, t2), max_s(t1, t2)))
    } else if min_c <= origin_c && origin_c <= max_c {
        Option::Some(((-FX_MAX) as i64, FX_MAX))
    } else {
        Option::None
    }
}

/// The slab method: intersect the three per-axis distance intervals; no
/// hit when they are disjoint or the box is entirely behind the origin;
/// the entry distance otherwise, or the exit distance when the origin is
/// inside the box.
pub open spec fn box_hit_s(
    b: BoxShape,
    origin: RaytracerVector,
    direction: RaytracerVector,
) -> Option<i64> {
    let sx = slab_s(b.min_point.x, b.max_point.x, origin.x, direction.x);
    let sy = slab_s(b.min_point.y, b.max_point.y, origin.y, direction.y);
    let sz = slab_s(b.min_point.z, b.max_point.z, origin.z, direction.z);
    match (sx, sy, sz) {
        (Option::Some((nx, fx)), Option::Some((ny, fy)), Option::Some((nz, fz))) => {
            let tmin = max_s(max_s(nx, ny), nz);
            let tmax = min_s(min_s(fx, fy), fz);
            if tmax < 0 || tmin > tmax {
                Option::None
            } else if tmin < 0 {
                Option::Some(tmax)
            } else {
                Option::Some(tmin)
            }
        },
        _ => Option::None,
    }
}

/// The outward axis-aligned normal of the face the hit point lies on,
/// decided by proximity within `FX_EPSILON`, faces tested in the x, y, z
/// min/max order; the zero vector when no face is within the tolerance.
pub open spec fn box_normal_s(b: BoxShape, hit_point: RaytracerVector) -> RaytracerVector {
    if abs_s(sub_s(hit_point.x, b.min_point.x)) < FX_EPSILON {
        RaytracerVector { x: (-FX_ONE) as i64, y: 0i64, z: 0i64 }
    } else if abs_s(sub_s(hit_point.x, b.max_point.x)) < FX_EPSILON {
        RaytracerVector { x: FX_ONE, y: 0i64, z: 0i64 }
    } else if abs_s(sub_s(hit_point.y, b.min_point.y)) < FX_EPSILON {
        RaytracerVector { x: 0i64, y: (-FX_ONE) as i64, z: 0i64 }
    } else if abs_s(sub_s(hit_point.y, b.max_point.y)) < FX_EPSILON {
        RaytracerVector { x: 0i64, y: FX_ONE, z: 0i64 }
    } else if abs_s(sub_s(hit_point.z, b.min_point.z)) < FX_EPSILON {
        RaytracerVector { x: 0i64, y: 0i64, z: (-FX_ONE) as i64 }
    } else if abs_s(sub_s(hit_point.z, b.max_point.z)) < FX_EPSILON {
        RaytracerVector { x: 0i64, y: 0i64, z: FX_ONE }
    } else {
        RaytracerVector { x: 0i64, y: 0i64, z: 0i64 }
    }
}

impl BoxShape {
    pub fn new(max_point: RaytracerVector, min_point: RaytracerVector, material: Material) -> (r:
        Self)
        requires
            vwf(max_point),
            vwf(min_point),
            mat_wf(material),
        ensures
            r == (BoxShape { max_point, min_point, material }),
            box_wf(r),
    {
        BoxShape { max_point, min_point, material }
    }

    /// One slab of the box along one axis.
    fn slab(min_c: i64, max_c: i64, origin_c: i64, direction_c: i64) -> (r: Option<(i64, i64)>)
        requires
            fx_wf(min_c),
            fx_wf(max_c),
            fx_wf(origin_c),
            fx_wf(direction_c),
        ensures
            r == slab_s(min_c, max_c, origin_c, direction_c),
            (match r {
                Option::Some(p) => fx_wf(p.0) && fx_wf(p.1),
                Option::None => true,
            }),
    {
        if direction_c != 0 {
            let inv: i64 = fx_div(FX_ONE, direction_c);
            let t1: i64 = fx_mul(fx_sub(min_c, origin_c), inv);
            let t2: i64 = fx_mul(fx_sub(max_c, origin_c), inv);
            if t1 <= t2 {
                Some((t1, t2))
            } else {
                Some((t2, t1))
            }
        } else if min_c <= origin_c && origin_c <= max_c {
            Some((-FX_MAX, FX_MAX))
        } else {
            None
        }
    }

    pub fn ray_intersect(&self, origin: RaytracerVector, direction: RaytracerVector) -> (r: Option<
        i64,
    >)
        requires
            box_wf(*self),
            vwf(origin),
            vwf(direction),
        ensures
            r == box_hit_s(*self, origin, direction),
            (match r {
                Option::Some(t) => fx_wf(t) && t >= 0,
                Option::None => true,
            }),
    {
        let sx = Self::slab(self.min_point.x, self.max_point.x, origin.x, direction.x);
        let sy = Self::slab(self.min_point.y, self.max_point.y, origin.y, direction.y);
        let sz = Self::slab(self.min_point.z, self.max_point.z, origin.z, direction.z);
        match (sx, sy, sz) {
            (Some((nx, fx)), Some((ny, fy)), Some((nz, fz))) => {
                let tmin: i64 = if nx >= ny { nx } else { ny };
                let tmin: i64 = if tmin >= nz { tmin } else { nz };
                let tmax: i64 = if fx <= fy { fx } else { fy };
                let tmax: i64 = if tmax <= fz { tmax } else { fz };
                if tmax < 0 || tmin > tmax {
                    None
                } else if tmin < 0 {
                    Some(tmax)
                } else {
                    Some(tmin)
                }
            },
            _ => None,
        }
    }

    pub fn get_material(&self) -> (r: Material)
        ensures
            r == self.material,
    {
        self.material
    }

    pub fn get_normal(&self, hit_point: RaytracerVector) -> (r: RaytracerVector)
        requires
            box_wf(*self),
            vwf(hit_point),
        ensures
            r == box_normal_s(*self, hit_point),
            vwf(r),
    {
        if fx_abs(fx_sub(hit_point.x, self.min_point.x)) < FX_EPSILON {
            RaytracerVector { x: -FX_ONE, y: 0, z: 0 }
        } else if fx_abs(fx_sub(hit_point.x, self.max_point.x)) < FX_EPSILON {
            RaytracerVector { x: FX_ONE, y: 0, z: 0 }
        } else if fx_abs(fx_sub(hit_point.y, self.min_point.y)) < FX_EPSILON {
            RaytracerVector { x: 0, y: -FX_ONE, z: 0 }
        } else if fx_abs(fx_sub(hit_point.y, self.max_point.y)) < FX_EPSILON {
            RaytracerVector { x: 0, y: FX_ONE, z: 0 }
        } else if fx_abs(fx_sub(hit_point.z, self.min_point.z)) < FX_EPSILON {
            RaytracerVector { x: 0, y: 0, z: -FX_ONE }
        } else if fx_abs(fx_sub(hit_point.z, self.max_point.z)) < FX_EPSILON {
            RaytracerVector { x: 0, y: 0, z: FX_ONE }
        } else {
            RaytracerVector { x: 0, y: 0, z: 0 }
        }
    }
}

// -------------------------------------------------------- InfinityPlane
#[derive(Clone, Copy, Debug, PartialEq, Eq, Structural)]
pub struct InfinityPlane {
    pub position: RaytracerVector,
    pub normal: RaytracerVector,
    pub material: Material,
}

pub open spec fn plane_wf(p: InfinityPlane) -> bool {
    vwf(p.position) && vwf(p.normal) && mat_wf(p.material)
}

/// Ray-plane intersection: no hit when the ray is parallel to the plane
/// within `FX_EPSILON` or the plane lies behind the origin.
pub open spec fn plane_hit_s(
    p: InfinityPlane,
    origin: RaytracerVector,
    direction: RaytracerVector,
) -> Option<i64> {
    let ray_point = vdot_s(direction, p.normal);
    if abs_s(ray_point) < FX_EPSILON {
        Option::None
    } else {
        let s = div_s(vdot_s(p.normal, vsub_s(p.position, origin)), ray_point);
        if s < 0 {
            Option::None
        } else {
            Option::Some(s)
        }
    }
}

impl InfinityPlane {
    /// The stored normal is normalized to unit length here.
    pub fn new(position: RaytracerVector, normal: RaytracerVector, material: Material) -> (r: Self)
        requires
            vwf(position),
            vwf(normal),
            mat_wf(material),
        ensures
            r.position == position,
            r.normal == vnormalize_s(normal, Option::None),
            r.material == material,
            plane_wf(r),
    {
        InfinityPlane { position, normal: normal.normalize(None), material }
    }

    pub fn ray_intersect(&self, origin: RaytracerVector, direction: RaytracerVector) -> (r: Option<
        i64,
    >)
        requires
            plane_wf(*self),
            vwf(origin),
            vwf(direction),
        ensures
            r == plane_hit_s(*self, origin, direction),
            (match r {
                Option::Some(t) => fx_wf(t) && t >= 0,
                Option::None => true,
            }),
    {
        let ray_point: i64 = direction.dot(self.normal);
        if fx_abs(ray_point) < FX_EPSILON {
            return None;
        }

        let s: i64 = fx_div(self.normal.dot(self.position.sub(origin)), ray_point);
        if s < 0 {
            return None;
        }

        Some(s)
    }

    pub fn get_material(&self) -> (r: Material)
        ensures
            r == self.material,
    {
        self.material
    }

    pub fn get_normal(&self, _hit_point: RaytracerVector) -> (r: RaytracerVector)
        requires
            plane_wf(*self),
        ensures
            r == self.normal,
            vwf(r),
    {
        self.normal
    }
}

// ------------------------------------------------------------ ShapeType
/// The closed set of shape variants a scene may hold.
#[derive(Clone, Copy, Debug, PartialEq, Eq, Structural)]
pub enum ShapeType {
    Sphere(Sphere),
    BoxShape(BoxShape),
    InfinityPlane(InfinityPlane),
}

pub open spec fn swf(s: ShapeType) -> bool {
    match s {
        ShapeType::Sphere(sphere) => sphere_wf(sphere),
        ShapeType::BoxShape(box_shape) => box_wf(box_shape),
        ShapeType::InfinityPlane(plane) => plane_wf(plane),
    }
}

pub open spec fn shape_hit_s(
    s: ShapeType,
    origin: RaytracerVector,
    direction: RaytracerVector,
) -> Option<i64> {
    match s {
        ShapeType::Sphere(sphere) => sphere_hit_s(sphere, origin, direction),
        ShapeType::BoxShape(box_shape) => box_hit_s(box_shape, origin, direction),
        ShapeType::InfinityPlane(plane) => plane_hit_s(plane, origin, direction),
    }
}

pub open spec fn shape_normal_s(s: ShapeType, hit_point: RaytracerVector) -> RaytracerVector {
    match s {
        ShapeType::Sphere(sphere) => sphere_normal_s(sphere, hit_point),
        ShapeType::BoxShape(box_shape) => box_normal_s(box_shape, hit_point),
        ShapeType::InfinityPlane(plane) => plane.normal,
    }
}

pub open spec fn shape_material_s(s: ShapeType) -> Material {
    match s {
        ShapeType::Sphere(sphere) => sphere.material,
        ShapeType::BoxShape(box_shape) => box_shape.material,
        ShapeType::InfinityPlane(plane) => plane.material,
    }
}

impl ShapeType {
    pub fn ray_intersect(&self, origin: RaytracerVector, direction: RaytracerVector) -> (r: Option<
        i64,
    >)
        requires
            swf(*self),
            vwf(origin),
            vwf(direction),
        ensures
            r == shape_hit_s(*self, origin, direction),
            (match r {
                Option::Some(t) => fx_wf(t) && t >= 0,
                Option::None => true,
            }),
    {
        match self {
            Self::Sphere(sphere) => sphere.ray_intersect(origin, direction),
            Self::BoxShape(box_shape) => box_shape.ray_intersect(origin, direction),
            Self::InfinityPlane(plane) => plane.ray_intersect(origin, direction),
        }
    }

    pub fn get_normal(&self, hit_point: RaytracerVector) -> (r: RaytracerVector)
        requires
            swf(*self),
            vwf(hit_point),
        ensures
            r == shape_normal_s(*self, hit_point),
            vwf(r),
    {
        match self {
            Self::Sphere(sphere) => sphere.get_normal(hit_point),
            Self::BoxShape(box_shape) => box_shape.get_normal(hit_point),
            Self::InfinityPlane(plane) => plane.get_normal(hit_point),
        }
    }

    pub fn get_material(&self) -> (r: Material)
        ensures
            r == shape_material_s(*self),
    {
        match self {
            Self::Sphere(sphere) => sphere.get_material(),
            Self::BoxShape(box_shape) => box_shape.get_material(),
            Self::InfinityPlane(plane) => plane.get_material(),
        }
    }
}

} // verus!
