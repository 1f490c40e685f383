use raytracer::geometry::RaytracerVector;
use raytracer::lights::{init_default_lights, AmbientLight, DirectionalLight, LightType, PointLight};
use raytracer::{FX_MAX, FX_ONE};

const S: i64 = 65536;

fn v(x: i64, y: i64, z: i64) -> RaytracerVector {
    RaytracerVector::new_with_data([x, y, z])
}

#[test]
fn ambient_light_is_ambient_with_placeholder_queries() {
    let a = AmbientLight::new(6554);
    assert!(a.is_ambient());
    assert_eq!(a.intensity(), 6554);
    assert_eq!(a.get_distance(v(S, 2 * S, 3 * S)), 0);
    let d = a.get_direction(v(S, 2 * S, 3 * S));
    assert_eq!((d.x, d.y, d.z), (0, 0, 0));
}

#[test]
fn directional_light_distance_is_always_the_maximum() {
    let d = DirectionalLight::new(2 * S, v(0, -S, 0));
    assert_eq!(d.get_distance(v(0, 0, 0)), FX_MAX);
    assert_eq!(d.get_distance(v(123 * S, -55 * S, 999 * S)), FX_MAX);
    assert!(!d.is_ambient());
    let dir = d.get_direction(v(7 * S, 8 * S, 9 * S));
    assert_eq!((dir.x, dir.y, dir.z), (0, -S, 0));
}

#[test]
fn point_light_direction_and_distance() {
    let p = PointLight::new(2 * S, v(0, 3 * S, 4 * S));
    assert!(!p.is_ambient());
    assert_eq!(p.get_distance(v(0, 0, 0)), 5 * S);
    let dir = p.get_direction(v(0, 0, 0));
    let dx = (dir.x as f64) / (S as f64);
    let dy = (dir.y as f64) / (S as f64);
    let dz = (dir.z as f64) / (S as f64);
    assert!(dx.abs() < 1e-3);
    assert!((dy - 0.6).abs() < 1e-3);
    assert!((dz - 0.8).abs() < 1e-3);
}

#[test]
fn light_variants_dispatch_their_queries() {
    let l = LightType::Point(PointLight::new(2 * S, v(0, 3 * S, 4 * S)));
    assert_eq!(l.intensity(), 2 * S);
    assert_eq!(l.get_distance(v(0, 0, 0)), 5 * S);
    assert!(!l.is_ambient());
    let a = LightType::Ambient(AmbientLight::new(6554));
    assert!(a.is_ambient());
    assert_eq!(a.get_distance(v(0, 0, 0)), 0);
    let d = LightType::Directional(DirectionalLight::new(S, v(0, 0, -S)));
    assert_eq!(d.get_distance(v(0, 0, 0)), FX_MAX);
}

#[test]
fn default_lights_are_one_ambient_one_directional_two_point() {
    let lights = init_default_lights();
    assert_eq!(lights.len(), 4);
    assert!(matches!(lights[0], LightType::Ambient(_)));
    assert!(matches!(lights[1], LightType::Directional(_)));
    assert!(matches!(lights[2], LightType::Point(_)));
    assert!(matches!(lights[3], LightType::Point(_)));
    assert_eq!(lights[0].intensity(), 6554);
    assert_eq!(lights[1].intensity(), 2 * S);
    if let LightType::Directional(d) = lights[1] {
        let len = d.direction.length();
        assert!(((len - FX_ONE).abs()) <= 4, "direction length {len}");
    }
}
