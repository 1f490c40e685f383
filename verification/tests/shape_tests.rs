use raytracer::geometry::RaytracerVector;
use raytracer::materials::{Albedo, Material};
use raytracer::shapes::{BoxShape, InfinityPlane, ShapeType, Sphere};
use raytracer::FX_ONE;

const S: i64 = 65536;

fn plain_material() -> Material {
    Material::new(
        Albedo { diffuse: 39322, specular: 19661, reflection: 0, refraction: 6554 },
        RaytracerVector::new_with_data([S, 6554, 6554]),
        RaytracerVector::new_with_data([13107, 3277, 3277]),
        250,
        S,
    )
}

fn v(x: i64, y: i64, z: i64) -> RaytracerVector {
    RaytracerVector::new_with_data([x, y, z])
}

#[test]
fn sphere_head_on_hit_distance_is_center_distance_minus_radius() {
    let sphere = Sphere::new(v(0, 0, -7 * S), 2 * S, plain_material());
    let hit = sphere.ray_intersect(v(0, 0, 0), v(0, 0, -S));
    let t = hit.expect("head-on ray must hit");
    let real = (t as f64) / (S as f64);
    assert!((real - 5.0).abs() < 1e-3, "distance {real}");
}

#[test]
fn sphere_missed_by_an_offset_ray_reports_no_hit() {
    let sphere = Sphere::new(v(5 * S, 0, -7 * S), 2 * S, plain_material());
    assert_eq!(sphere.ray_intersect(v(0, 0, 0), v(0, 0, -S)), None);
}

#[test]
fn sphere_tangent_ray_returns_the_repeated_root() {
    // The perpendicular distance from the center to the ray equals the
    // radius exactly, so the two roots coincide at tca = 5.
    let sphere = Sphere::new(v(2 * S, 0, -5 * S), 2 * S, plain_material());
    let hit = sphere.ray_intersect(v(0, 0, 0), v(0, 0, -S));
    assert_eq!(hit, Some(5 * S));
}

#[test]
fn sphere_behind_the_origin_reports_no_hit() {
    let sphere = Sphere::new(v(0, 0, 7 * S), 2 * S, plain_material());
    assert_eq!(sphere.ray_intersect(v(0, 0, 0), v(0, 0, -S)), None);
}

#[test]
fn sphere_normal_points_out_of_the_center() {
    let sphere = Sphere::new(v(0, 0, -7 * S), 2 * S, plain_material());
    let n = sphere.get_normal(v(0, 0, -5 * S));
    assert_eq!((n.x, n.y, n.z), (0, 0, FX_ONE));
}

#[test]
fn box_is_entered_through_the_near_face() {
    let b = BoxShape::new(v(S, S, -4 * S), v(-S, -S, -6 * S), plain_material());
    let hit = b.ray_intersect(v(0, 0, 0), v(0, 0, -S));
    assert_eq!(hit, Some(4 * S));
}

#[test]
fn box_misses_a_parallel_ray_outside_its_slabs() {
    let b = BoxShape::new(v(S, S, -4 * S), v(-S, -S, -6 * S), plain_material());
    assert_eq!(b.ray_intersect(v(3 * S, 0, 0), v(0, 0, -S)), None);
}

#[test]
fn box_hit_from_inside_returns_the_exit_distance() {
    let b = BoxShape::new(v(S, S, S), v(-S, -S, -S), plain_material());
    let hit = b.ray_intersect(v(0, 0, 0), v(0, 0, -S));
    assert_eq!(hit, Some(S));
}

#[test]
fn box_normal_is_the_nearest_face_axis() {
    let b = BoxShape::new(v(S, S, -4 * S), v(-S, -S, -6 * S), plain_material());
    let n = b.get_normal(v(0, 0, -4 * S));
    assert_eq!((n.x, n.y, n.z), (0, 0, FX_ONE));
    let n2 = b.get_normal(v(-S, 0, -5 * S));
    assert_eq!((n2.x, n2.y, n2.z), (-FX_ONE, 0, 0));
}

#[test]
fn plane_hit_at_the_expected_distance() {
    let plane = InfinityPlane::new(v(0, -2 * S, 0), v(0, S, 0), plain_material());
    let hit = plane.ray_intersect(v(0, 0, 0), v(0, -S, 0));
    assert_eq!(hit, Some(2 * S));
}

#[test]
fn plane_parallel_ray_reports_no_hit() {
    let plane = InfinityPlane::new(v(0, -2 * S, 0), v(0, S, 0), plain_material());
    assert_eq!(plane.ray_intersect(v(0, 0, 0), v(S, 0, 0)), None);
}

#[test]
fn plane_behind_the_origin_reports_no_hit() {
    let plane = InfinityPlane::new(v(0, 2 * S, 0), v(0, S, 0), plain_material());
    assert_eq!(plane.ray_intersect(v(0, 0, 0), v(0, -S, 0)), None);
}

#[test]
fn plane_constructor_normalizes_the_normal() {
    let plane = InfinityPlane::new(v(0, -2 * S, 0), v(0, 10 * S, 0), plain_material());
    let n = plane.get_normal(v(0, 0, 0));
    assert_eq!((n.x, n.y, n.z), (0, FX_ONE, 0));
}

#[test]
fn shape_variants_dispatch_to_their_own_intersection() {
    let m = plain_material();
    let shape = ShapeType::Sphere(Sphere::new(v(0, 0, -7 * S), 2 * S, m));
    assert!(shape.ray_intersect(v(0, 0, 0), v(0, 0, -S)).is_some());
    assert_eq!(shape.get_material(), m);
    let plane = ShapeType::InfinityPlane(InfinityPlane::new(v(0, -2 * S, 0), v(0, S, 0), m));
    assert_eq!(plane.ray_intersect(v(0, 0, 0), v(0, -S, 0)), Some(2 * S));
}
