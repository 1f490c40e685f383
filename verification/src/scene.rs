//! The ray-casting engine: scene-wide nearest-intersection query, shadow
//! testing, recursive Whitted shading, and full-frame rendering, sequential
//! and parallel.

use vstd::prelude::*;

use rayon::iter::{IndexedParallelIterator, ParallelIterator};
use rayon::slice::ParallelSliceMut;

use crate::fixed::{
    add_s, clamp3_s, div_s, fx_add, fx_clamp, fx_div, fx_max, fx_mul, fx_neg, fx_pow, fx_sqrt,
    fx_sub, fx_wf, max_s, mul_s, neg_s, pow_s, sqrt_s, sub_s,
};
use crate::geometry::{
    vadd_s, vdot_s, vlength_s, vneg_s, vnormalize_s, vscale_s, vsub_s, vwf, RaytracerVector,
};
use crate::lights::{
    is_ambient_s, light_direction_s, light_distance_s, light_intensity_s, lwf, LightType,
};
use crate::materials::{mat_wf, Material};
use crate::shapes::{shape_hit_s, shape_material_s, shape_normal_s, swf, ShapeType};
use crate::{FX_EPSILON, FX_FAR, FX_HALF, FX_ONE, FX_TWO, MAX_DEPTH};

verus! {

/// The color returned where a ray leaves the scene.
pub open spec fn background_s() -> RaytracerVector {
    RaytracerVector { x: 13107i64, y: 45875i64, z: 52428i64 }
}

/// The background color (0.2, 0.7, 0.8) in fixed point.
pub fn background_color() -> (r: RaytracerVector)
    ensures
        r == background_s(),
        vwf(r),
{
    RaytracerVector { x: 13107, y: 45875, z: 52428 }
}

/// Quantization of one color channel to a byte: clamp into [0, 1], scale
/// by 255, round to nearest.
pub open spec fn to_u8_s(color: i64) -> u8 {
    (((clamp3_s(color, 0, FX_ONE) * 255) + FX_HALF) / (FX_ONE as int)) as u8
}

/// Clamped 0-255 quantization of one color channel.
pub fn to_u8(color: i64) -> (r: u8)
    ensures
        r == to_u8_s(color),
{
    let c: i64 = fx_clamp(color, 0, FX_ONE);
    (((c as u64) * 255 + (FX_HALF as u64)) / (FX_ONE as u64)) as u8
}

pub open spec fn reflect_s(direction: RaytracerVector, normal: RaytracerVector) -> RaytracerVector {
    vsub_s(direction, vscale_s(vscale_s(normal, vdot_s(direction, normal)), FX_TWO))
}

/// Mirror reflection of `direction` about `normal`.
pub fn reflect(direction: RaytracerVector, normal: RaytracerVector) -> (r: RaytracerVector)
    requires
        vwf(direction),
        vwf(normal),
    ensures
        r == reflect_s(direction, normal),
        vwf(r),
{
    direction.sub(normal.scale(direction.dot(normal)).scale(FX_TWO))
}

pub open spec fn refract_s(
    direction: RaytracerVector,
    normal: RaytracerVector,
    refractive_index: i64,
) -> RaytracerVector {
    let cosi0 = clamp3_s(vdot_s(direction, normal), (-FX_ONE) as i64, FX_ONE);
    let entering = cosi0 < 0;
    let cosi = if entering {
        neg_s(cosi0)
    } else {
        cosi0
    };
    let eta = if entering {
        div_s(refractive_index, FX_ONE)
    } else {
        div_s(FX_ONE, refractive_index)
    };
    let n = if entering {
        vneg_s(normal)
    } else {
        normal
    };
    let k = sub_s(FX_ONE, mul_s(mul_s(eta, eta), sub_s(FX_ONE, mul_s(cosi, cosi))));
    if k < 0 {
        RaytracerVector { x: 0i64, y: 0i64, z: 0i64 }
    } else {
        vadd_s(vscale_s(direction, eta), vscale_s(n, sub_s(mul_s(eta, cosi), sqrt_s(k))))
    }
}

/// Snell's-law vector refraction; the zero vector on total internal
/// reflection (the energy is absorbed rather than redirected into the
/// reflection term, which the shading model preserves as given).
pub fn refract(
    direction: RaytracerVector,
    normal: RaytracerVector,
    refractive_index: i64,
) -> (r: RaytracerVector)
    requires
        vwf(direction),
        vwf(normal),
        fx_wf(refractive_index),
    ensures
        r == refract_s(direction, normal, refractive_index),
        vwf(r),
{
    let mut cosi: i64 = fx_clamp(direction.dot(normal), -FX_ONE, FX_ONE);
    let mut ior_in: i64 = FX_ONE;
    let mut ior_out: i64 = refractive_index;
    let mut n: RaytracerVector = normal;

    if cosi < 0 {
        cosi = fx_neg(cosi);
        let tmp: i64 = ior_in;
        ior_in = ior_out;
        ior_out = tmp;
        n = n.neg();
    }

    let eta: i64 = fx_div(ior_in, ior_out);
    let k: i64 = fx_sub(FX_ONE, fx_mul(fx_mul(eta, eta), fx_sub(FX_ONE, fx_mul(cosi, cosi))));

    if k < 0 {
        return RaytracerVector { x: 0, y: 0, z: 0 };
    }
    direction.scale(eta).add(n.scale(fx_sub(fx_mul(eta, cosi), fx_sqrt(k))))
}

pub open spec fn adjust_s(
    direction: RaytracerVector,
    point: RaytracerVector,
    normal: RaytracerVector,
) -> RaytracerVector {
    if vdot_s(direction, normal) < 0 {
        vsub_s(point, vscale_s(normal, FX_EPSILON))
    } else {
        vadd_s(point, vscale_s(normal, FX_EPSILON))
    }
}

/// Offset a secondary ray's origin off the originating surface along the
/// normal, on the side `direction` points to, to avoid shadow acne.
pub fn adjust_ray_origin(
    direction: RaytracerVector,
    point: RaytracerVector,
    normal: RaytracerVector,
) -> (r: RaytracerVector)
    requires
        vwf(direction),
        vwf(point),
        vwf(normal),
    ensures
        r == adjust_s(direction, point, normal),
        vwf(r),
{
    if direction.dot(normal) < 0 {
        return point.sub(normal.scale(FX_EPSILON));
    }
    point.add(normal.scale(FX_EPSILON))
}

pub open spec fn shapes_wf(shapes: Seq<ShapeType>) -> bool {
    forall|i: int| 0 <= i < shapes.len() ==> swf(#[trigger] shapes[i])
}

pub open spec fn lights_wf(lights: Seq<LightType>) -> bool {
    forall|i: int| 0 <= i < lights.len() ==> lwf(#[trigger] lights[i])
}

/// The nearest hit over a prefix of the shape list: the smallest
/// distance, the earliest shape winning ties.
pub open spec fn best_hit_s(
    shapes: Seq<ShapeType>,
    origin: RaytracerVector,
    direction: RaytracerVector,
) -> Option<(i64, int)>
    decreases shapes.len(),
{
    if shapes.len() == 0 {
        Option::None
    } else {
        let prev = best_hit_s(shapes.drop_last(), origin, direction);
        let i = shapes.len() - 1;
        match shape_hit_s(shapes.last(), origin, direction) {
            Option::None => prev,
            Option::Some(t) => match prev {
                Option::None => Option::Some((t, i as int)),
                Option::Some(p) => if t < p.0 {
                    Option::Some((t, i as int))
                } else {
                    prev
                },
            },
        }
    }
}

/// The nearest-hit query over the whole scene: hit point, surface normal
/// and material of the winning shape, unless the nearest hit lies beyond
/// the far plane — a hit at exactly the far plane is kept.
pub open spec fn scene_intersect_s(
    shapes: Seq<ShapeType>,
    origin: RaytracerVector,
    direction: RaytracerVector,
) -> Option<(RaytracerVector, RaytracerVector, Material)> {
    match best_hit_s(shapes, origin, direction) {
        Option::None => Option::None,
        Option::Some(best) => if best.0 <= FX_FAR {
            let hit = vadd_s(origin, vscale_s(direction, best.0));
            Option::Some(
                (hit, shape_normal_s(shapes[best.1], hit), shape_material_s(shapes[best.1])),
            )
        } else {
            Option::None
        },
    }
}

/// Linear scan over all shapes for the nearest forward intersection
/// within the far plane.
pub fn scene_intersect(
    origin: RaytracerVector,
    direction: RaytracerVector,
    shapes: &Vec<ShapeType>,
) -> (r: Option<(RaytracerVector, RaytracerVector, Material)>)
    requires
        vwf(origin),
        vwf(direction),
        shapes_wf(shapes@),
    ensures
        r == scene_intersect_s(shapes@, origin, direction),
        (match r {
            Option::Some(h) => vwf(h.0) && vwf(h.1) && mat_wf(h.2),
            Option::None => true,
        }),
{
    let mut best: Option<(i64, usize)> = None;
    let mut idx: usize = 0;
    while idx < shapes.len()
        invariant
            idx <= shapes@.len(),
            vwf(origin),
            vwf(direction),
            shapes_wf(shapes@),
            (match best {
                Option::Some(b) => {
                    &&& best_hit_s(shapes@.take(idx as int), origin, direction) == Option::Some(
                        (b.0, b.1 as int),
                    )
                    &&& b.1 < idx
                    &&& fx_wf(b.0)
                    &&& b.0 >= 0
                },
                Option::None => best_hit_s(shapes@.take(idx as int), origin, direction)
                    is None,
            }),
        decreases shapes@.len() - idx,
    {
        let hit: Option<i64> = shapes[idx].ray_intersect(origin, direction);
        proof {
            assert(shapes@.take(idx + 1).drop_last() =~= shapes@.take(idx as int));
            assert(shapes@.take(idx + 1).last() == shapes@[idx as int]);
        }
        match hit {
            Some(t) => {
                match best {
                    Some(b) => {
                        if t < b.0 {
                            best = Some((t, idx));
                        }
                    },
                    None => {
                        best = Some((t, idx));
                    },
                }
            },
            None => {},
        }
        idx = idx + 1;
    }
    proof {
        assert(shapes@.take(shapes@.len() as int) =~= shapes@);
    }
    match best {
        Some(b) => {
            if b.0 <= FX_FAR {
                let hit_point = origin.add(direction.scale(b.0));
                let normal = shapes[b.1].get_normal(hit_point);
                let material = shapes[b.1].get_material();
                Some((hit_point, normal, material))
            } else {
                None
            }
        },
        None => None,
    }
}

} // verus!

verus! {

pub open spec fn in_shadow_s(
    normal: RaytracerVector,
    point: RaytracerVector,
    light_direction: RaytracerVector,
    light_distance: i64,
    shapes: Seq<ShapeType>,
) -> (bool, Option<(RaytracerVector, RaytracerVector)>) {
    let shadow_origin = adjust_s(light_direction, point, normal);
    match scene_intersect_s(shapes, shadow_origin, light_direction) {
        Option::None => (false, Option::None),
        Option::Some(h) => (
            vlength_s(vsub_s(h.0, shadow_origin)) < light_distance,
            Option::Some((shadow_origin, h.0)),
        ),
    }
}

/// Shadow test: cast a feeler ray from the offset point toward the
/// light; the point is shadowed exactly when some shape intersects the
/// feeler strictly closer than the light itself.
pub fn is_in_shadow(
    normal: RaytracerVector,
    point: RaytracerVector,
    light_direction: RaytracerVector,
    light_distance: i64,
    shapes: &Vec<ShapeType>,
) -> (r: (bool, Option<(RaytracerVector, RaytracerVector)>))
    requires
        vwf(normal),
        vwf(point),
        vwf(light_direction),
        fx_wf(light_distance),
        shapes_wf(shapes@),
    ensures
        r == in_shadow_s(normal, point, light_direction, light_distance, shapes@),
{
    let shadow_origin = adjust_ray_origin(light_direction, point, normal);
    let scene_intersect_option = scene_intersect(shadow_origin, light_direction, shapes);
    let Some(scene_intersect_result) = scene_intersect_option else {
        return (false, None);
    };

    let (shadow_hit, _, _) = scene_intersect_result;

    (
        shadow_hit.sub(shadow_origin).length() < light_distance,
        Some((shadow_origin, shadow_hit)),
    )
}

/// One light's contribution at a hit point: ambient lights feed the
/// ambient sum only; a shadowed light contributes nothing; otherwise the
/// Lambert diffuse term and the Phong specular term.
pub open spec fn light_contrib_s(
    light: LightType,
    hit: RaytracerVector,
    normal: RaytracerVector,
    direction: RaytracerVector,
    material: Material,
    shapes: Seq<ShapeType>,
) -> (i64, i64, i64) {
    if is_ambient_s(light) {
        (light_intensity_s(light), 0i64, 0i64)
    } else {
        let light_direction = light_direction_s(light, hit);
        let light_distance = light_distance_s(light, hit);
        let refl = vdot_s(reflect_s(light_direction, normal), direction);
        if in_shadow_s(normal, hit, light_direction, light_distance, shapes).0 {
            (0i64, 0i64, 0i64)
        } else {
            (
                0i64,
                mul_s(light_intensity_s(light), max_s(0, vdot_s(light_direction, normal))),
                mul_s(
                    pow_s(max_s(0, refl), material.specular_exponent as nat),
                    light_intensity_s(light),
                ),
            )
        }
    }
}

/// The (ambient, diffuse, specular) sums over a light list, accumulated
/// left to right.
pub open spec fn lighting_s(
    lights: Seq<LightType>,
    hit: RaytracerVector,
    normal: RaytracerVector,
    direction: RaytracerVector,
    material: Material,
    shapes: Seq<ShapeType>,
) -> (i64, i64, i64)
    decreases lights.len(),
{
    if lights.len() == 0 {
        (0i64, 0i64, 0i64)
    } else {
        let p = lighting_s(lights.drop_last(), hit, normal, direction, material, shapes);
        let c = light_contrib_s(lights.last(), hit, normal, direction, material, shapes);
        (add_s(p.0, c.0), add_s(p.1, c.1), add_s(p.2, c.2))
    }
}

/// Accumulate every light's ambient, diffuse and specular contribution
/// at a hit point.
pub fn compute_lighting(
    hit: RaytracerVector,
    normal: RaytracerVector,
    direction: RaytracerVector,
    lights: &Vec<LightType>,
    material: Material,
    shapes: &Vec<ShapeType>,
) -> (r: (i64, i64, i64))
    requires
        vwf(hit),
        vwf(normal),
        vwf(direction),
        lights_wf(lights@),
        mat_wf(material),
        shapes_wf(shapes@),
    ensures
        r == lighting_s(lights@, hit, normal, direction, material, shapes@),
        fx_wf(r.0) && fx_wf(r.1) && fx_wf(r.2),
{
    let mut ambient: i64 = 0;
    let mut diffuse: i64 = 0;
    let mut specular: i64 = 0;
    let mut idx: usize = 0;
    while idx < lights.len()
        invariant
            idx <= lights@.len(),
            vwf(hit),
            vwf(normal),
            vwf(direction),
            lights_wf(lights@),
            mat_wf(material),
            shapes_wf(shapes@),
            fx_wf(ambient),
            fx_wf(diffuse),
            fx_wf(specular),
            (ambient, diffuse, specular) == lighting_s(
                lights@.take(idx as int),
                hit,
                normal,
                direction,
                material,
                shapes@,
            ),
        decreases lights@.len() - idx,
    {
        proof {
            assert(lights@.take(idx + 1).drop_last() =~= lights@.take(idx as int));
            assert(lights@.take(idx + 1).last() == lights@[idx as int]);
        }
        let light = &lights[idx];
        if light.is_ambient() {
            ambient = fx_add(ambient, light.intensity());
        } else {
            let light_direction = light.get_direction(hit);
            let light_distance = light.get_distance(hit);
            let refl: i64 = reflect(light_direction, normal).dot(direction);

            let (shadowed, _shadow_point) = is_in_shadow(
                normal,
                hit,
                light_direction,
                light_distance,
                shapes,
            );

            if !shadowed {
                let dif: i64 = fx_mul(light.intensity(), fx_max(0, light_direction.dot(normal)));
                let spe: i64 = fx_mul(
                    fx_pow(fx_max(0, refl), material.specular_exponent),
                    light.intensity(),
                );
                diffuse = fx_add(diffuse, dif);
                specular = fx_add(specular, spe);
            }
        }
        idx = idx + 1;
    }
    proof {
        assert(lights@.take(lights@.len() as int) =~= lights@);
    }
    (ambient, diffuse, specular)
}

/// The shading formula: the ambient term plus the albedo-weighted
/// diffuse, specular (against white), reflected and refracted terms.
pub open spec fn final_color_s(
    material: Material,
    ambient_light_intensity: i64,
    diffuse_light_intensity: i64,
    specular_light_intensity: i64,
    reflect_color: RaytracerVector,
    refract_color: RaytracerVector,
) -> RaytracerVector {
    vadd_s(
        vadd_s(
            vadd_s(
                vadd_s(
                    vscale_s(material.ambient_color, ambient_light_intensity),
                    vscale_s(
                        vscale_s(material.diffuse_color, diffuse_light_intensity),
                        material.albedo.diffuse,
                    ),
                ),
                vscale_s(
                    vscale_s(
                        RaytracerVector { x: FX_ONE, y: FX_ONE, z: FX_ONE },
                        specular_light_intensity,
                    ),
                    material.albedo.specular,
                ),
            ),
            vscale_s(reflect_color, material.albedo.reflection),
        ),
        vscale_s(refract_color, material.albedo.refraction),
    )
}

/// Combine the lighting sums and the recursive colors into the final
/// color of a hit.
pub fn calculate_final_color(
    material: Material,
    ambient_light_intensity: i64,
    diffuse_light_intensity: i64,
    specular_light_intensity: i64,
    reflect_color: RaytracerVector,
    refract_color: RaytracerVector,
) -> (r: RaytracerVector)
    requires
        mat_wf(material),
        fx_wf(ambient_light_intensity),
        fx_wf(diffuse_light_intensity),
        fx_wf(specular_light_intensity),
        vwf(reflect_color),
        vwf(refract_color),
    ensures
        r == final_color_s(
            material,
            ambient_light_intensity,
            diffuse_light_intensity,
            specular_light_intensity,
            reflect_color,
            refract_color,
        ),
        vwf(r),
{
    let albedo = material.albedo();
    material.ambient_color().scale(ambient_light_intensity).add(
        material.diffuse_color().scale(diffuse_light_intensity).scale(albedo.diffuse),
    ).add(
        RaytracerVector { x: FX_ONE, y: FX_ONE, z: FX_ONE }.scale(specular_light_intensity).scale(
            albedo.specular,
        ),
    ).add(reflect_color.scale(albedo.reflection)).add(refract_color.scale(albedo.refraction))
}

/// Recursion measure of the ray-casting engine.
pub open spec fn depth_measure(depth: u32) -> nat {
    if depth > MAX_DEPTH {
        0
    } else {
        (MAX_DEPTH - depth + 1) as nat
    }
}

/// The central recursive shading algorithm: the background past the
/// recursion bound or where nothing is hit; otherwise the local shading
/// combined with the colors of the recursive reflection and refraction
/// rays.
pub open spec fn cast_ray_s(
    shapes: Seq<ShapeType>,
    lights: Seq<LightType>,
    origin: RaytracerVector,
    direction: RaytracerVector,
    depth: u32,
) -> RaytracerVector
    decreases depth_measure(depth),
{
    if depth > MAX_DEPTH {
        background_s()
    } else {
        match scene_intersect_s(shapes, origin, direction) {
            Option::None => background_s(),
            Option::Some(h) => {
                let hit = h.0;
                let normal = h.1;
                let material = h.2;
                let reflect_direction = vnormalize_s(reflect_s(direction, normal), Option::None);
                let reflect_origin = adjust_s(reflect_direction, hit, normal);
                let reflect_color = cast_ray_s(
                    shapes,
                    lights,
                    reflect_origin,
                    reflect_direction,
                    (depth + 1) as u32,
                );
                let refract_direction = vnormalize_s(
                    refract_s(direction, normal, material.refractive_index),
                    Option::None,
                );
                let refract_origin = adjust_s(refract_direction, hit, normal);
                let refract_color = cast_ray_s(
                    shapes,
                    lights,
                    refract_origin,
                    refract_direction,
                    (depth + 1) as u32,
                );
                let l = lighting_s(lights, hit, normal, direction, material, shapes);
                final_color_s(material, l.0, l.1, l.2, reflect_color, refract_color)
            },
        }
    }
}

/// Cast one ray into the scene and shade the nearest hit, recursing into
/// the reflected and refracted rays up to `MAX_DEPTH`; past that bound
/// the background color is returned whatever the scene holds.
pub fn cast_ray(
    origin: RaytracerVector,
    direction: RaytracerVector,
    shapes: &Vec<ShapeType>,
    lights: &Vec<LightType>,
    depth: u32,
) -> (r: RaytracerVector)
    requires
        vwf(origin),
        vwf(direction),
        shapes_wf(shapes@),
        lights_wf(lights@),
    ensures
        r == cast_ray_s(shapes@, lights@, origin, direction, depth),
        vwf(r),
        depth > MAX_DEPTH ==> r == background_s(),
    decreases depth_measure(depth),
{
    if depth > MAX_DEPTH {
        return background_color();
    }

    let Some(scene_intersect_result) = scene_intersect(origin, direction, shapes) else {
        return background_color();
    };

    let (hit, normal, material) = scene_intersect_result;

    let reflect_direction = reflect(direction, normal).normalize(None);
    let reflect_origin = adjust_ray_origin(reflect_direction, hit, normal);
    let reflect_color = cast_ray(reflect_origin, reflect_direction, shapes, lights, depth + 1);

    let refract_direction = refract(direction, normal, material.refractive_index()).normalize(
        None,
    );
    let refract_origin = adjust_ray_origin(refract_direction, hit, normal);
    let refract_color = cast_ray(refract_origin, refract_direction, shapes, lights, depth + 1);

    let (ambient, diffuse, specular) = compute_lighting(
        hit,
        normal,
        direction,
        lights,
        material,
        shapes,
    );

    calculate_final_color(material, ambient, diffuse, specular, reflect_color, refract_color)
}

} // verus!

verus! {

/// The fixed camera position: on the positive principal axis, looking
/// down its negative direction.
pub open spec fn camera_origin_s() -> RaytracerVector {
    RaytracerVector { x: 0i64, y: 0i64, z: FX_TWO }
}

/// The camera-space ray direction of pixel `index` (row-major), from the
/// normalized device coordinates and the tangent of half the horizontal
/// field of view.
pub open spec fn pixel_dir_s(width: u32, height: u32, fov_tan: i64, index: int) -> RaytracerVector {
    let i = index % (width as int);
    let j = index / (width as int);
    let fi = (i * FX_ONE) as i64;
    let fj = (j * FX_ONE) as i64;
    let fw = ((width as int) * FX_ONE) as i64;
    let fh = ((height as int) * FX_ONE) as i64;
    let x = div_s(
        mul_s(mul_s(sub_s(div_s(mul_s(FX_TWO, add_s(fi, FX_HALF)), fw), FX_ONE), fov_tan), fw),
        fh,
    );
    let y = neg_s(mul_s(sub_s(div_s(mul_s(FX_TWO, add_s(fj, FX_HALF)), fh), FX_ONE), fov_tan));
    vnormalize_s(RaytracerVector { x, y, z: (-FX_ONE) as i64 }, Option::None)
}

/// The color of pixel `index`: one primary ray cast at depth zero.
pub open spec fn pixel_color_s(
    shapes: Seq<ShapeType>,
    lights: Seq<LightType>,
    width: u32,
    height: u32,
    fov_tan: i64,
    index: int,
) -> RaytracerVector {
    cast_ray_s(shapes, lights, camera_origin_s(), pixel_dir_s(width, height, fov_tan, index), 0)
}

/// The quantized RGB bytes of pixel `index`.
pub open spec fn pixel_rgb_s(
    shapes: Seq<ShapeType>,
    lights: Seq<LightType>,
    width: u32,
    height: u32,
    fov_tan: i64,
    index: int,
) -> (u8, u8, u8) {
    let c = pixel_color_s(shapes, lights, width, height, fov_tan, index);
    (to_u8_s(c.x), to_u8_s(c.y), to_u8_s(c.z))
}

/// Byte `k` of the rendered frame: pixel `k / 4`'s red, green or blue
/// channel, or the constant 255 alpha.
pub open spec fn frame_byte_s(
    shapes: Seq<ShapeType>,
    lights: Seq<LightType>,
    width: u32,
    height: u32,
    fov_tan: i64,
    k: int,
) -> u8 {
    let rgb = pixel_rgb_s(shapes, lights, width, height, fov_tan, k / 4);
    if k % 4 == 0 {
        rgb.0
    } else if k % 4 == 1 {
        rgb.1
    } else if k % 4 == 2 {
        rgb.2
    } else {
        255u8
    }
}

/// The whole rendered frame: `width * height` pixels, row-major, top to
/// bottom, 4 bytes `[R, G, B, A]` each.
pub open spec fn frame_s(
    shapes: Seq<ShapeType>,
    lights: Seq<LightType>,
    width: u32,
    height: u32,
    fov_tan: i64,
) -> Seq<u8> {
    Seq::new(
        ((width as int) * (height as int) * 4) as nat,
        |k: int| frame_byte_s(shapes, lights, width, height, fov_tan, k),
    )
}

/// Compute one pixel's quantized color: the camera ray for that pixel,
/// cast into the scene at depth zero.
pub fn render_pixel(
    shapes: &Vec<ShapeType>,
    lights: &Vec<LightType>,
    width: u32,
    height: u32,
    fov_tan: i64,
    index: usize,
) -> (rgb: (u8, u8, u8))
    requires
        width > 0,
        height > 0,
        (index as int) < (width as int) * (height as int),
        shapes_wf(shapes@),
        lights_wf(lights@),
        fx_wf(fov_tan),
    ensures
        rgb == pixel_rgb_s(shapes@, lights@, width, height, fov_tan, index as int),
{
    let i: u32 = (index % (width as usize)) as u32;
    proof {
        assert((index as int) / (width as int) < height as int) by (nonlinear_arith)
            requires
                (index as int) < (width as int) * (height as int),
                width > 0,
                index >= 0,
        ;
    }
    let j: u32 = (index / (width as usize)) as u32;
    let fi: i64 = (i as i64) * FX_ONE;
    let fj: i64 = (j as i64) * FX_ONE;
    let fw: i64 = (width as i64) * FX_ONE;
    let fh: i64 = (height as i64) * FX_ONE;
    let x: i64 = fx_div(
        fx_mul(fx_mul(fx_sub(fx_div(fx_mul(FX_TWO, fx_add(fi, FX_HALF)), fw), FX_ONE), fov_tan), fw),
        fh,
    );
    let y: i64 = fx_neg(fx_mul(fx_sub(fx_div(fx_mul(FX_TWO, fx_add(fj, FX_HALF)), fh), FX_ONE), fov_tan));
    let dir = RaytracerVector { x, y, z: -FX_ONE }.normalize(None);
    let color = cast_ray(RaytracerVector { x: 0, y: 0, z: FX_TWO }, dir, shapes, lights, 0);
    (to_u8(color.x), to_u8(color.y), to_u8(color.z))
}

/// A byte buffer whose every 4-byte group holds the corresponding pixel's
/// quantized color followed by a 255 alpha is exactly the rendered frame.
pub proof fn lemma_pixel_bytes_form_frame(
    frame: Seq<u8>,
    shapes: Seq<ShapeType>,
    lights: Seq<LightType>,
    width: u32,
    height: u32,
    fov_tan: i64,
)
    requires
        width > 0,
        height > 0,
        frame.len() == (width as int) * (height as int) * 4,
        forall|p: int|
            0 <= p < (width as int) * (height as int) ==> {
                &&& frame[4 * p] == pixel_rgb_s(shapes, lights, width, height, fov_tan, p).0
                &&& frame[4 * p + 1] == pixel_rgb_s(shapes, lights, width, height, fov_tan, p).1
                &&& frame[4 * p + 2] == pixel_rgb_s(shapes, lights, width, height, fov_tan, p).2
                &&& frame[4 * p + 3] == 255u8
            },
    ensures
        frame == frame_s(shapes, lights, width, height, fov_tan),
{
    let wh = (width as int) * (height as int);
    assert forall|k: int| 0 <= k < wh * 4 implies frame[k] == frame_byte_s(
        shapes,
        lights,
        width,
        height,
        fov_tan,
        k,
    ) by {
        let p = k / 4;
        assert(k == 4 * p + k % 4);
        assert(0 <= p < wh);
        assert(frame[4 * p] == pixel_rgb_s(shapes, lights, width, height, fov_tan, p).0);
        assert(frame[4 * p + 1] == pixel_rgb_s(shapes, lights, width, height, fov_tan, p).1);
        assert(frame[4 * p + 2] == pixel_rgb_s(shapes, lights, width, height, fov_tan, p).2);
        assert(frame[4 * p + 3] == 255u8);
    }
    assert(frame =~= frame_s(shapes, lights, width, height, fov_tan));
}

/// Relies on rayon's `par_chunks_mut(4)`, `enumerate` and `for_each`:
/// the slice splits into disjoint consecutive 4-byte chunks, chunk `p`
/// starting at byte `4 * p`, each visited exactly once; the closure only
/// calls the verified per-pixel renderer and stores its bytes.
#[verifier::external_body]
fn par_fill_frame(
    shapes: &Vec<ShapeType>,
    lights: &Vec<LightType>,
    frame: &mut Vec<u8>,
    width: u32,
    height: u32,
    fov_tan: i64,
)
    requires
        width > 0,
        height > 0,
        old(frame)@.len() == (width as int) * (height as int) * 4,
        shapes_wf(shapes@),
        lights_wf(lights@),
        fx_wf(fov_tan),
    ensures
        final(frame)@.len() == old(frame)@.len(),
        forall|p: int|
            0 <= p < (width as int) * (height as int) ==> {
                &&& final(frame)@[4 * p] == pixel_rgb_s(shapes@, lights@, width, height, fov_tan, p).0
                &&& final(frame)@[4 * p + 1] == pixel_rgb_s(shapes@, lights@, width, height, fov_tan, p).1
                &&& final(frame)@[4 * p + 2] == pixel_rgb_s(shapes@, lights@, width, height, fov_tan, p).2
                &&& final(frame)@[4 * p + 3] == 255u8
            },
{
    frame.as_mut_slice().par_chunks_mut(4).enumerate().for_each(
        |(p, chunk): (usize, &mut [u8])| {
            let rgb = render_pixel(shapes, lights, width, height, fov_tan, p);
            chunk[0] = rgb.0;
            chunk[1] = rgb.1;
            chunk[2] = rgb.2;
            chunk[3] = 255;
        },
    );
}

/// A scene: the ordered shape and light collections, owned by value.
pub struct Scene {
    pub shapes: Vec<ShapeType>,
    pub lights: Vec<LightType>,
}

pub open spec fn scene_wf(s: Scene) -> bool {
    shapes_wf(s.shapes@) && lights_wf(s.lights@)
}

impl Scene {
    pub fn new(shapes: Vec<ShapeType>, lights: Vec<LightType>) -> (r: Self)
        requires
            shapes_wf(shapes@),
            lights_wf(lights@),
        ensures
            r.shapes == shapes,
            r.lights == lights,
            scene_wf(r),
    {
        Scene { shapes, lights }
    }

    /// Append a light; the shapes and the other lights are unchanged.
    pub fn push_light(&mut self, light: LightType)
        requires
            lwf(light),
            scene_wf(*old(self)),
        ensures
            final(self).lights@ == old(self).lights@.push(light),
            final(self).shapes == old(self).shapes,
            scene_wf(*final(self)),
    {
        self.lights.push(light);
    }

    /// Append a shape; the lights and the other shapes are unchanged.
    pub fn push_shape(&mut self, shape: ShapeType)
        requires
            swf(shape),
            scene_wf(*old(self)),
        ensures
            final(self).shapes@ == old(self).shapes@.push(shape),
            final(self).lights == old(self).lights,
            scene_wf(*final(self)),
    {
        self.shapes.push(shape);
    }

    /// Render the whole frame sequentially, one pixel after the other:
    /// every byte of the buffer is written, `[R, G, B, 255]` per pixel.
    #[verifier::rlimit(50)]
    pub fn render_scene(&self, frame: &mut Vec<u8>, height: u32, width: u32, fov_tan: i64)
        requires
            scene_wf(*self),
            fx_wf(fov_tan),
            width > 0,
            height > 0,
            old(frame)@.len() == (width as int) * (height as int) * 4,
        ensures
            final(frame)@ == frame_s(self.shapes@, self.lights@, width, height, fov_tan),
    {
        let flen: usize = frame.len();
        let total: usize = flen / 4;
        let mut p: usize = 0;
        while p < total
            invariant
                scene_wf(*self),
                fx_wf(fov_tan),
                width > 0,
                height > 0,
                total == (width as int) * (height as int),
                4 * (total as int) <= usize::MAX as int,
                p <= total,
                frame@.len() == total * 4,
                forall|k: int|
                    0 <= k < 4 * (p as int) ==> frame@[k] == frame_byte_s(
                        self.shapes@,
                        self.lights@,
                        width,
                        height,
                        fov_tan,
                        k,
                    ),
            decreases total - p,
        {
            let rgb = render_pixel(&self.shapes, &self.lights, width, height, fov_tan, p);
            frame[4 * p] = rgb.0;
            frame[4 * p + 1] = rgb.1;
            frame[4 * p + 2] = rgb.2;
            frame[4 * p + 3] = 255;
            proof {
                assert forall|k: int| 0 <= k < 4 * (p as int) + 4 implies frame@[k]
                    == frame_byte_s(self.shapes@, self.lights@, width, height, fov_tan, k) by {
                    if k >= 4 * (p as int) {
                        assert(k / 4 == p as int);
                        assert(frame@[k] == frame_byte_s(
                            self.shapes@,
                            self.lights@,
                            width,
                            height,
                            fov_tan,
                            k,
                        ));
                    }
                }
            }
            p = p + 1;
        }
        proof {
            assert(frame@ =~= frame_s(self.shapes@, self.lights@, width, height, fov_tan));
        }
    }

    /// Render the whole frame with the pixels distributed across a worker
    /// pool; the result is byte-identical to `render_scene`'s.
    pub fn render_scene_parallel(&self, frame: &mut Vec<u8>, height: u32, width: u32, fov_tan: i64)
        requires
            scene_wf(*self),
            fx_wf(fov_tan),
            width > 0,
            height > 0,
            old(frame)@.len() == (width as int) * (height as int) * 4,
        ensures
            final(frame)@ == frame_s(self.shapes@, self.lights@, width, height, fov_tan),
    {
        par_fill_frame(&self.shapes, &self.lights, frame, width, height, fov_tan);
        proof {
            lemma_pixel_bytes_form_frame(
                frame@,
                self.shapes@,
                self.lights@,
                width,
                height,
                fov_tan,
            );
        }
    }
}

} // verus!

verus! {

/// The lighting sums are always well-formed scalars.
pub proof fn lemma_lighting_wf(
    lights: Seq<LightType>,
    hit: RaytracerVector,
    normal: RaytracerVector,
    direction: RaytracerVector,
    material: Material,
    shapes: Seq<ShapeType>,
)
    ensures
        fx_wf(lighting_s(lights, hit, normal, direction, material, shapes).0),
        fx_wf(lighting_s(lights, hit, normal, direction, material, shapes).1),
        fx_wf(lighting_s(lights, hit, normal, direction, material, shapes).2),
    decreases lights.len(),
{
    if lights.len() > 0 {
        lemma_lighting_wf(lights.drop_last(), hit, normal, direction, material, shapes);
    }
}

/// An ambient light feeds only the ambient sum: appending one to the
/// light list adds its intensity to the ambient sum and leaves the
/// diffuse and specular sums untouched — its direction and distance
/// never participate in the accumulation.
pub proof fn lemma_ambient_light_only_ambient(
    lights: Seq<LightType>,
    ambient: crate::lights::AmbientLight,
    hit: RaytracerVector,
    normal: RaytracerVector,
    direction: RaytracerVector,
    material: Material,
    shapes: Seq<ShapeType>,
)
    ensures
        lighting_s(lights.push(LightType::Ambient(ambient)), hit, normal, direction, material,
        shapes).0 == add_s(
            lighting_s(lights, hit, normal, direction, material, shapes).0,
            ambient.intensity,
        ),
        lighting_s(lights.push(LightType::Ambient(ambient)), hit, normal, direction, material,
        shapes).1 == lighting_s(lights, hit, normal, direction, material, shapes).1,
        lighting_s(lights.push(LightType::Ambient(ambient)), hit, normal, direction, material,
        shapes).2 == lighting_s(lights, hit, normal, direction, material, shapes).2,
{
    let extended = lights.push(LightType::Ambient(ambient));
    assert(extended.drop_last() =~= lights);
    assert(extended.last() == LightType::Ambient(ambient));
    lemma_lighting_wf(lights, hit, normal, direction, material, shapes);
}

/// A light whose shadow feeler reports an occluder strictly closer than
/// the light itself contributes nothing at all: no ambient, no diffuse
/// and no specular term.
pub proof fn lemma_shadowed_light_contributes_nothing(
    light: LightType,
    hit: RaytracerVector,
    normal: RaytracerVector,
    direction: RaytracerVector,
    material: Material,
    shapes: Seq<ShapeType>,
)
    requires
        !is_ambient_s(light),
        in_shadow_s(
            normal,
            hit,
            light_direction_s(light, hit),
            light_distance_s(light, hit),
            shapes,
        ).0,
    ensures
        light_contrib_s(light, hit, normal, direction, material, shapes) == (0i64, 0i64, 0i64),
{
}

/// Appending a shadowed, non-ambient light to the light list changes no
/// lighting sum: its whole diffuse and specular contribution is zero.
pub proof fn lemma_shadowed_light_adds_nothing(
    lights: Seq<LightType>,
    light: LightType,
    hit: RaytracerVector,
    normal: RaytracerVector,
    direction: RaytracerVector,
    material: Material,
    shapes: Seq<ShapeType>,
)
    requires
        !is_ambient_s(light),
        in_shadow_s(
            normal,
            hit,
            light_direction_s(light, hit),
            light_distance_s(light, hit),
            shapes,
        ).0,
    ensures
        lighting_s(lights.push(light), hit, normal, direction, material, shapes) == lighting_s(
            lights,
            hit,
            normal,
            direction,
            material,
            shapes,
        ),
{
    let extended = lights.push(light);
    assert(extended.drop_last() =~= lights);
    assert(extended.last() == light);
    lemma_shadowed_light_contributes_nothing(light, hit, normal, direction, material, shapes);
    lemma_lighting_wf(lights, hit, normal, direction, material, shapes);
}

/// Rendering is deterministic: two frames of the same scene and camera
/// parameters are byte-identical, whichever of the sequential and the
/// parallel renderer produced each — both equal `frame_s`.
pub proof fn lemma_render_deterministic(
    frame1: Seq<u8>,
    frame2: Seq<u8>,
    shapes: Seq<ShapeType>,
    lights: Seq<LightType>,
    width: u32,
    height: u32,
    fov_tan: i64,
)
    requires
        frame1 == frame_s(shapes, lights, width, height, fov_tan),
        frame2 == frame_s(shapes, lights, width, height, fov_tan),
    ensures
        frame1 == frame2,
{
}

} // verus!
