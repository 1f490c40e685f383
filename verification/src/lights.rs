//! Light sources: a closed sum type over ambient, point and directional
//! lights, dispatched by pattern matching.
//!
//! Each light answers three queries at a surface point: its constant
//! intensity, the unit direction from the point toward the light, and the
//! distance to the light.  The ambient light's direction and distance are
//! placeholders (zero); the directional light's distance is `FX_MAX`, the
//! largest representable scalar, which no occluder distance can be below
//! of without being an occluder, so it plays the role of `+infinity`.

use vstd::prelude::*;

use crate::fixed::fx_wf;
use crate::geometry::{vnormalize_s, vwf, RaytracerVector};
use crate::FX_MAX;

verus! {

#[derive(Clone, Copy, Debug, PartialEq, Eq, Structural)]
pub struct AmbientLight {
    pub intensity: i64,
}

impl AmbientLight {
    pub fn new(intensity: i64) -> (r: Self)
        requires
            fx_wf(intensity),
        ensures
            r == (AmbientLight { intensity }),
    {
        AmbientLight { intensity }
    }

    pub fn intensity(&self) -> (r: i64)
        ensures
            r == self.intensity,
    {
        self.intensity
    }

    /// Meaningless placeholder: callers branch on `is_ambient` first.
    pub fn get_direction(&self, _point: RaytracerVector) -> (r: RaytracerVector)
        ensures
            r == (RaytracerVector { x: 0i64, y: 0i64, z: 0i64 }),
    {
        RaytracerVector { x: 0, y: 0, z: 0 }
    }

    /// Meaningless placeholder: callers branch on `is_ambient` first.
    pub fn get_distance(&self, _point: RaytracerVector) -> (r: i64)
        ensures
            r == 0,
    {
        0
    }

    pub fn is_ambient(&self) -> (r: bool)
        ensures
            r,
    {
        true
    }
}

#[derive(Clone, Copy, Debug, PartialEq, Eq, Structural)]
pub struct PointLight {
    pub intensity: i64,
    pub position: RaytracerVector,
}

impl PointLight {
    pub fn new(intensity: i64, position: RaytracerVector) -> (r: Self)
        requires
            fx_wf(intensity),
            vwf(position),
        ensures
            r == (PointLight { intensity, position }),
    {
        PointLight { intensity, position }
    }

    pub fn intensity(&self) -> (r: i64)
        ensures
            r == self.intensity,
    {
        self.intensity
    }

    /// Unit vector from the query point toward the light.
    pub fn get_direction(&self, point: RaytracerVector) -> (r: RaytracerVector)
        requires
            vwf(self.position),
            vwf(point),
        ensures
            r == point_light_direction_s(*self, point),
            vwf(r),
    {
        self.position.sub(point).normalize(None)
    }

    /// Distance from the query point to the light.
    pub fn get_distance(&self, point: RaytracerVector) -> (r: i64)
        requires
            vwf(self.position),
            vwf(point),
        ensures
            r == point_light_distance_s(*self, point),
            fx_wf(r),
            r >= 0,
    {
        self.position.sub(point).length()
    }

    pub fn is_ambient(&self) -> (r: bool)
        ensures
            !r,
    {
        false
    }
}

pub open spec fn point_light_direction_s(l: PointLight, point: RaytracerVector) -> RaytracerVector {
    vnormalize_s(crate::geometry::vsub_s(l.position, point), Option::None)
}

pub open spec fn point_light_distance_s(l: PointLight, point: RaytracerVector) -> i64 {
    crate::geometry::vlength_s(crate::geometry::vsub_s(l.position, point))
}

#[derive(Clone, Copy, Debug, PartialEq, Eq, Structural)]
pub struct DirectionalLight {
    pub intensity: i64,
    pub direction: RaytracerVector,
}

impl DirectionalLight {
    /// The direction is stored as given; callers pass it pre-normalized.
    pub fn new(intensity: i64, direction: RaytracerVector) -> (r: Self)
        requires
            fx_wf(intensity),
            vwf(direction),
        ensures
            r == (DirectionalLight { intensity, direction }),
    {
        DirectionalLight { intensity, direction }
    }

    pub fn intensity(&self) -> (r: i64)
        ensures
            r == self.intensity,
    {
        self.intensity
    }

    /// The stored direction, whatever the query point.
    pub fn get_direction(&self, _point: RaytracerVector) -> (r: RaytracerVector)
        ensures
            r == self.direction,
    {
        self.direction
    }

    /// Always the largest representable distance, whatever the query
    /// point: a directional light is never occluded by the distance test.
    pub fn get_distance(&self, _point: RaytracerVector) -> (r: i64)
        ensures
            r == FX_MAX,
    {
        FX_MAX
    }

    pub fn is_ambient(&self) -> (r: bool)
        ensures
            !r,
    {
        false
    }
}

/// The closed set of light variants a scene may hold.
#[derive(Clone, Copy, Debug, PartialEq, Eq, Structural)]
pub enum LightType {
    Point(PointLight),
    Directional(DirectionalLight),
    Ambient(AmbientLight),
}

pub open spec fn lwf(l: LightType) -> bool {
    match l {
        LightType::Point(p) => fx_wf(p.intensity) && vwf(p.position),
        LightType::Directional(d) => fx_wf(d.intensity) && vwf(d.direction),
        LightType::Ambient(a) => fx_wf(a.intensity),
    }
}

pub open spec fn light_intensity_s(l: LightType) -> i64 {
    match l {
        LightType::Point(p) => p.intensity,
        LightType::Directional(d) => d.intensity,
        LightType::Ambient(a) => a.intensity,
    }
}

pub open spec fn light_direction_s(l: LightType, point: RaytracerVector) -> RaytracerVector {
    match l {
        LightType::Point(p) => point_light_direction_s(p, point),
        LightType::Directional(d) => d.direction,
        LightType::Ambient(_) => RaytracerVector { x: 0i64, y: 0i64, z: 0i64 },
    }
}

pub open spec fn light_distance_s(l: LightType, point: RaytracerVector) -> i64 {
    match l {
        LightType::Point(p) => point_light_distance_s(p, point),
        LightType::Directional(_) => FX_MAX,
        LightType::Ambient(_) => 0,
    }
}

pub open spec fn is_ambient_s(l: LightType) -> bool {
    l is Ambient
}

impl LightType {
    pub fn intensity(&self) -> (r: i64)
        ensures
            r == light_intensity_s(*self),
    {
        match self {
            Self::Ambient(light) => light.intensity(),
            Self::Directional(light) => light.intensity(),
            Self::Point(light) => light.intensity(),
        }
    }

    pub fn get_direction(&self, point: RaytracerVector) -> (r: RaytracerVector)
        requires
            lwf(*self),
            vwf(point),
        ensures
            r == light_direction_s(*self, point),
            vwf(r),
    {
        match self {
            Self::Ambient(light) => light.get_direction(point),
            Self::Point(light) => light.get_direction(point),
            Self::Directional(light) => light.get_direction(point),
        }
    }

    pub fn get_distance(&self, point: RaytracerVector) -> (r: i64)
        requires
            lwf(*self),
            vwf(point),
        ensures
            r == light_distance_s(*self, point),
            fx_wf(r),
    {
        match self {
            Self::Ambient(light) => light.get_distance(point),
            Self::Point(light) => light.get_distance(point),
            Self::Directional(light) => light.get_distance(point),
        }
    }

    pub fn is_ambient(&self) -> (r: bool)
        ensures
            r == is_ambient_s(*self),
    {
        match self {
            Self::Ambient(_) => true,
            Self::Point(_) => false,
            Self::Directional(_) => false,
        }
    }
}

/// The default light list: one ambient light, one directional light
/// along the normalized (-1, -1, -1) direction, and two point lights.
pub fn init_default_lights() -> (lights: Vec<LightType>)
    ensures
        lights@.len() == 4,
        lights@[0] == LightType::Ambient(AmbientLight { intensity: 6554 }),
        lights@[1] == LightType::Directional(
            DirectionalLight {
                intensity: 131072,
                direction: vnormalize_s(
                    RaytracerVector { x: -65536i64, y: -65536i64, z: -65536i64 },
                    Option::None,
                ),
            },
        ),
        lights@[2] == LightType::Point(
            PointLight {
                intensity: 131072,
                position: RaytracerVector { x: 131072i64, y: 327680i64, z: 0i64 },
            },
        ),
        lights@[3] == LightType::Point(
            PointLight {
                intensity: 32768,
                position: RaytracerVector { x: -65536i64, y: -65536i64, z: 327680i64 },
            },
        ),
        forall|i: int| 0 <= i < lights@.len() ==> lwf(#[trigger] lights@[i]),
{
    let ambient = AmbientLight::new(6554);
    let base = RaytracerVector::new_with_data([-65536, -65536, -65536]);
    let directional = DirectionalLight::new(131072, base.normalize(None));
    let point_a = PointLight::new(131072, RaytracerVector::new_with_data([131072, 327680, 0]));
    let point_b = PointLight::new(32768, RaytracerVector::new_with_data([-65536, -65536, 327680]));
    let mut lights: Vec<LightType> = Vec::new();
    lights.push(LightType::Ambient(ambient));
    lights.push(LightType::Directional(directional));
    lights.push(LightType::Point(point_a));
    lights.push(LightType::Point(point_b));
    lights
}

} // verus!
