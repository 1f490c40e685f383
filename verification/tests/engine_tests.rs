use raytracer::geometry::RaytracerVector;
use raytracer::lights::{init_default_lights, AmbientLight, LightType, PointLight};
use raytracer::materials::{Albedo, Material};
use raytracer::scene::{
    adjust_ray_origin, background_color, cast_ray, compute_lighting, is_in_shadow, reflect,
    refract, scene_intersect, Scene,
};
use raytracer::shapes::{InfinityPlane, ShapeType, Sphere};
use raytracer::MAX_DEPTH;

const S: i64 = 65536;

fn v(x: i64, y: i64, z: i64) -> RaytracerVector {
    RaytracerVector::new_with_data([x, y, z])
}

fn red_material() -> Material {
    Material::new(
        Albedo { diffuse: 39322, specular: 19661, reflection: 0, refraction: 6554 },
        v(S, 6554, 6554),
        v(13107, 3277, 3277),
        250,
        S,
    )
}

fn mirror_material() -> Material {
    Material::new(
        Albedo { diffuse: 0, specular: 0, reflection: 58982, refraction: 1966 },
        v(S, S, S),
        v(0, 0, 0),
        1000,
        S,
    )
}

#[test]
fn reflection_bounces_off_the_normal() {
    let r = reflect(v(0, -S, 0), v(0, S, 0));
    assert_eq!((r.x, r.y, r.z), (0, S, 0));
}

#[test]
fn refraction_through_equal_media_keeps_the_direction() {
    let d = v(0, 0, -S);
    let r = refract(d, v(0, 0, S), S);
    assert_eq!(r, d);
}

#[test]
fn total_internal_reflection_returns_the_zero_vector() {
    let d = v(10 * S, 0, -S).normalize(None);
    let r = refract(d, v(0, 0, S), 3 * S / 2);
    assert_eq!(r, v(0, 0, 0));
}

#[test]
fn ray_origins_are_offset_away_from_the_surface() {
    let point = v(0, 0, 0);
    let normal = v(0, S, 0);
    let toward = adjust_ray_origin(v(0, S, 0), point, normal);
    assert!(toward.y > 0);
    let away = adjust_ray_origin(v(0, -S, 0), point, normal);
    assert!(away.y < 0);
}

#[test]
fn nearest_shape_wins_the_intersection_query() {
    let near = ShapeType::Sphere(Sphere::new(v(0, 0, -5 * S), S, red_material()));
    let far = ShapeType::Sphere(Sphere::new(v(0, 0, -20 * S), S, mirror_material()));
    let shapes = vec![far, near];
    let hit = scene_intersect(v(0, 0, 0), v(0, 0, -S), &shapes);
    let (hit_point, _, material) = hit.expect("the ray must hit");
    assert_eq!(material, red_material());
    let real_z = (hit_point.z as f64) / (S as f64);
    assert!((real_z + 4.0).abs() < 1e-3, "hit z {real_z}");
}

#[test]
fn hits_beyond_the_far_plane_are_discarded() {
    let shapes = vec![ShapeType::Sphere(Sphere::new(v(0, 0, -1100 * S), 2 * S, red_material()))];
    assert_eq!(scene_intersect(v(0, 0, 0), v(0, 0, -S), &shapes), None);
}

#[test]
fn hit_at_exactly_the_far_plane_is_kept() {
    // A plane facing the ray at exactly 1000 length units: the hit
    // distance is exactly the far plane, which is not "exceeding" it.
    let plane = InfinityPlane::new(v(0, 0, -1000 * S), v(0, 0, S), red_material());
    assert_eq!(plane.ray_intersect(v(0, 0, 0), v(0, 0, -S)), Some(1000 * S));
    let shapes = vec![ShapeType::InfinityPlane(plane)];
    let hit = scene_intersect(v(0, 0, 0), v(0, 0, -S), &shapes);
    let (hit_point, _, _) = hit.expect("the boundary hit must be kept");
    assert_eq!(hit_point.z, -1000 * S);
}

#[test]
fn empty_scene_has_no_intersection() {
    let shapes: Vec<ShapeType> = Vec::new();
    assert_eq!(scene_intersect(v(0, 0, 0), v(0, 0, -S), &shapes), None);
}

#[test]
fn shadow_feeler_detects_an_occluder_before_the_light() {
    let shapes = vec![ShapeType::Sphere(Sphere::new(v(0, 3 * S, 0), S, red_material()))];
    let (shadowed, witness) = is_in_shadow(v(0, S, 0), v(0, 0, 0), v(0, S, 0), 5 * S, &shapes);
    assert!(shadowed);
    assert!(witness.is_some());

    let empty: Vec<ShapeType> = Vec::new();
    let (open, none) = is_in_shadow(v(0, S, 0), v(0, 0, 0), v(0, S, 0), 5 * S, &empty);
    assert!(!open);
    assert!(none.is_none());
}

#[test]
fn occluder_between_light_and_point_zeroes_diffuse_and_specular() {
    let hit = v(0, 0, 0);
    let normal = v(0, S, 0);
    let direction = v(0, 0, -S);
    let lights = vec![LightType::Point(PointLight::new(2 * S, v(0, 5 * S, 0)))];

    let open: Vec<ShapeType> = Vec::new();
    let (ambient, diffuse, specular) =
        compute_lighting(hit, normal, direction, &lights, red_material(), &open);
    assert_eq!(ambient, 0);
    assert_eq!(diffuse, 2 * S);
    assert_eq!(specular, 0);

    let occluded = vec![ShapeType::Sphere(Sphere::new(v(0, 3 * S, 0), S, red_material()))];
    let (ambient, diffuse, specular) =
        compute_lighting(hit, normal, direction, &lights, red_material(), &occluded);
    assert_eq!((ambient, diffuse, specular), (0, 0, 0));
}

#[test]
fn ambient_light_feeds_only_the_ambient_sum() {
    let lights = vec![LightType::Ambient(AmbientLight::new(6554))];
    let shapes: Vec<ShapeType> = Vec::new();
    let (ambient, diffuse, specular) =
        compute_lighting(v(0, 0, 0), v(0, S, 0), v(0, 0, -S), &lights, red_material(), &shapes);
    assert_eq!((ambient, diffuse, specular), (6554, 0, 0));
}

#[test]
fn cast_ray_past_the_depth_bound_returns_the_background() {
    let shapes = vec![ShapeType::Sphere(Sphere::new(v(0, 0, -7 * S), 2 * S, red_material()))];
    let lights = init_default_lights();
    let color = cast_ray(v(0, 0, 2 * S), v(0, 0, -S), &shapes, &lights, MAX_DEPTH + 1);
    assert_eq!(color, background_color());
}

#[test]
fn cast_ray_into_an_empty_scene_returns_the_background() {
    let shapes: Vec<ShapeType> = Vec::new();
    let lights = init_default_lights();
    let color = cast_ray(v(0, 0, 2 * S), v(0, 0, -S), &shapes, &lights, 0);
    assert_eq!(color, background_color());
}

fn demo_scene() -> Scene {
    let shapes = vec![
        ShapeType::Sphere(Sphere::new(v(0, -S, -7 * S), 2 * S, red_material())),
        ShapeType::Sphere(Sphere::new(v(2 * S, 0, -4 * S), S, mirror_material())),
        ShapeType::InfinityPlane(InfinityPlane::new(
            v(0, -3 * S, 0),
            v(0, -10 * S, -S),
            mirror_material(),
        )),
    ];
    Scene::new(shapes, init_default_lights())
}

#[test]
fn scene_collections_grow_by_push() {
    let mut scene = Scene::new(Vec::new(), Vec::new());
    scene.push_shape(ShapeType::Sphere(Sphere::new(v(0, 0, -7 * S), 2 * S, red_material())));
    scene.push_light(LightType::Ambient(AmbientLight::new(6554)));
    assert_eq!(scene.shapes.len(), 1);
    assert_eq!(scene.lights.len(), 1);
}

#[test]
fn rendering_twice_is_byte_identical() {
    let scene = demo_scene();
    let (width, height): (u32, u32) = (4, 3);
    let mut frame1 = vec![0u8; (width * height * 4) as usize];
    let mut frame2 = vec![0u8; (width * height * 4) as usize];
    scene.render_scene(&mut frame1, height, width, S);
    scene.render_scene(&mut frame2, height, width, S);
    assert_eq!(frame1, frame2);
}

#[test]
fn parallel_rendering_matches_sequential_rendering() {
    let scene = demo_scene();
    let (width, height): (u32, u32) = (4, 3);
    let mut sequential = vec![0u8; (width * height * 4) as usize];
    let mut parallel = vec![0u8; (width * height * 4) as usize];
    scene.render_scene(&mut sequential, height, width, S);
    scene.render_scene_parallel(&mut parallel, height, width, S);
    assert_eq!(sequential, parallel);
}

#[test]
fn every_alpha_byte_is_opaque_after_a_render() {
    let scene = demo_scene();
    let (width, height): (u32, u32) = (4, 3);
    let mut frame = vec![0u8; (width * height * 4) as usize];
    scene.render_scene(&mut frame, height, width, S);
    for pixel in frame.chunks(4) {
        assert_eq!(pixel[3], 255);
    }
}

#[test]
fn ambient_lit_red_sphere_renders_a_red_dominated_pixel() {
    // One red-diffuse sphere on the camera axis, one ambient light of
    // intensity 0.1, a single center pixel: the color is the ambient term
    // plus the doubly attenuated refraction of the background.
    let shapes = vec![ShapeType::Sphere(Sphere::new(v(0, 0, -7 * S), 2 * S, red_material()))];
    let lights = vec![LightType::Ambient(AmbientLight::new(6554))];
    let scene = Scene::new(shapes, lights);
    let mut frame = vec![0u8; 4];
    scene.render_scene(&mut frame, 1, 1, S);

    assert!(frame[0] > frame[1], "red {} green {}", frame[0], frame[1]);
    assert!(frame[0] > frame[2], "red {} blue {}", frame[0], frame[2]);
    assert_eq!(frame[3], 255);

    // ambient_color * 0.1 * 1.1 + background * 0.1 * 0.1, per channel,
    // quantized to bytes.
    let expected = [
        (0.2f64 * 0.1 * 1.1 + 0.2 * 0.01) * 255.0,
        (0.05f64 * 0.1 * 1.1 + 0.7 * 0.01) * 255.0,
        (0.05f64 * 0.1 * 1.1 + 0.8 * 0.01) * 255.0,
    ];
    for channel in 0..3 {
        let got = frame[channel] as f64;
        assert!(
            (got - expected[channel]).abs() <= 2.0,
            "channel {channel}: got {got}, expected about {}",
            expected[channel]
        );
    }
}
