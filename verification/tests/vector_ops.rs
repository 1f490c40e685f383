use raytracer::geometry::RaytracerVector;
use raytracer::FX_ONE;

const S: i64 = 65536;

#[test]
fn constructors_fill_components() {
    let v = RaytracerVector::new(3 * S);
    assert_eq!((v.x, v.y, v.z), (3 * S, 3 * S, 3 * S));

    let w = RaytracerVector::new_with_data([S, 2 * S, 3 * S]);
    assert_eq!((w.x, w.y, w.z), (S, 2 * S, 3 * S));

    let c = RaytracerVector::const_new_with_data([S, 2 * S, 3 * S]);
    assert_eq!(w, c);
}

#[test]
fn component_access_by_index() {
    let v = RaytracerVector::new_with_data([S, 2 * S, 3 * S]);
    assert_eq!(v.at(0), S);
    assert_eq!(v.at(1), 2 * S);
    assert_eq!(v.at(2), 3 * S);
}

#[test]
fn componentwise_arithmetic() {
    let a = RaytracerVector::new_with_data([S, 2 * S, 3 * S]);
    let b = RaytracerVector::new_with_data([4 * S, 5 * S, 6 * S]);
    let sum = a.add(b);
    assert_eq!((sum.x, sum.y, sum.z), (5 * S, 7 * S, 9 * S));
    let diff = b.sub(a);
    assert_eq!((diff.x, diff.y, diff.z), (3 * S, 3 * S, 3 * S));
    let n = a.neg();
    assert_eq!((n.x, n.y, n.z), (-S, -2 * S, -3 * S));
    let sc = a.scale(2 * S);
    assert_eq!((sc.x, sc.y, sc.z), (2 * S, 4 * S, 6 * S));
    let dv = sc.div_by(2 * S);
    assert_eq!(dv, a);
}

#[test]
fn dot_product_is_the_scalar_sum() {
    let a = RaytracerVector::new_with_data([S, 2 * S, 3 * S]);
    let b = RaytracerVector::new_with_data([4 * S, -5 * S, 6 * S]);
    assert_eq!(a.dot(b), (4 - 10 + 18) * S);
}

#[test]
fn cross_product_follows_the_right_hand_rule() {
    let x = RaytracerVector::new_with_data([S, 0, 0]);
    let y = RaytracerVector::new_with_data([0, S, 0]);
    let z = x.cross(&y);
    assert_eq!((z.x, z.y, z.z), (0, 0, S));
    let z2 = RaytracerVector::cross_static(&x, &y);
    assert_eq!(z, z2);
}

#[test]
fn cross_is_antisymmetric() {
    let a = RaytracerVector::new_with_data([3 * S, -7 * S, 2 * S + 12345]);
    let b = RaytracerVector::new_with_data([-S, 4 * S + 999, 5 * S]);
    let ab = a.cross(&b);
    let ba_neg = b.cross(&a).neg();
    assert_eq!(ab, ba_neg);
}

#[test]
fn length_of_a_pythagorean_vector_is_exact() {
    let v = RaytracerVector::new_with_data([3 * S, 4 * S, 0]);
    assert_eq!(v.length(), 5 * S);
}

#[test]
fn normalized_vectors_have_unit_length() {
    let vectors = [
        RaytracerVector::new_with_data([S, 0, 0]),
        RaytracerVector::new_with_data([3 * S, 4 * S, 0]),
        RaytracerVector::new_with_data([-S, -S, -S]),
        RaytracerVector::new_with_data([7 * S, -2 * S, 11 * S]),
    ];
    for v in vectors {
        let n = v.normalize(None);
        let len = n.length();
        let real = (len as f64) / (S as f64);
        assert!((real - 1.0).abs() < 1e-3, "length {real}");
    }
}

#[test]
fn normalize_to_a_target_scale() {
    let v = RaytracerVector::new_with_data([3 * S, 4 * S, 0]);
    let n = v.normalize(Some(2 * S));
    let real = (n.length() as f64) / (S as f64);
    assert!((real - 2.0).abs() < 1e-3, "length {real}");
}

#[test]
fn normalize_of_the_zero_vector_is_the_zero_vector() {
    let v = RaytracerVector::new(0);
    let n = v.normalize(None);
    assert_eq!(n, RaytracerVector::new(0));
}

#[test]
fn unit_length_is_exactly_one_on_an_axis() {
    let v = RaytracerVector::new_with_data([S, 0, 0]);
    let n = v.normalize(None);
    assert_eq!(n.length(), FX_ONE);
}
