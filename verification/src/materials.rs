//! Immutable per-surface optical properties.

use vstd::prelude::*;

use crate::fixed::fx_wf;
use crate::geometry::{vwf, RaytracerVector};

verus! {

/// Four weights apportioning a surface's response between the diffuse,
/// specular, reflective and refractive contributions.
#[derive(Clone, Copy, Debug, PartialEq, Eq, Structural)]
pub struct Albedo {
    pub diffuse: i64,
    pub specular: i64,
    pub reflection: i64,
    pub refraction: i64,
}

pub open spec fn albedo_wf(a: Albedo) -> bool {
    fx_wf(a.diffuse) && fx_wf(a.specular) && fx_wf(a.reflection) && fx_wf(a.refraction)
}

/// A material: created once at scene-setup time, never mutated, copied
/// freely.  The specular exponent is the Phong shininess (a non-negative
/// integer); the refractive index is a fixed-point scalar, 1.0 meaning
/// no bending.
#[derive(Clone, Copy, Debug, PartialEq, Eq, Structural)]
pub struct Material {
    pub albedo: Albedo,
    pub diffuse_color: RaytracerVector,
    pub ambient_color: RaytracerVector,
    pub specular_exponent: u32,
    pub refractive_index: i64,
}

pub open spec fn mat_wf(m: Material) -> bool {
    albedo_wf(m.albedo) && vwf(m.diffuse_color) && vwf(m.ambient_color) && fx_wf(
        m.refractive_index,
    )
}

impl Material {
    pub fn new(
        albedo: Albedo,
        diffuse_color: RaytracerVector,
        ambient_color: RaytracerVector,
        specular_exponent: u32,
        refractive_index: i64,
    ) -> (r: Self)
        requires
            albedo_wf(albedo),
            vwf(diffuse_color),
            vwf(ambient_color),
            fx_wf(refractive_index),
        ensures
            r == (Material { albedo, diffuse_color, ambient_color, specular_exponent,
            refractive_index }),
            mat_wf(r),
    {
        Material { albedo, diffuse_color, ambient_color, specular_exponent, refractive_index }
    }

    pub fn albedo(&self) -> (r: Albedo)
        ensures
            r == self.albedo,
    {
        self.albedo
    }

    pub fn diffuse_color(&self) -> (r: RaytracerVector)
        ensures
            r == self.diffuse_color,
    {
        self.diffuse_color
    }

    pub fn ambient_color(&self) -> (r: RaytracerVector)
        ensures
            r == self.ambient_color,
    {
        self.ambient_color
    }

    pub fn specular_exponent(&self) -> (r: u32)
        ensures
            r == self.specular_exponent,
    {
        self.specular_exponent
    }

    pub fn refractive_index(&self) -> (r: i64)
        ensures
            r == self.refractive_index,
    {
        self.refractive_index
    }
}

} // verus!
