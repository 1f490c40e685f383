use raytracer::fixed::{fx_add, fx_clamp, fx_div, fx_max, fx_min, fx_mul, fx_neg, fx_pow, fx_sqrt, fx_sub};
use raytracer::scene::to_u8;
use raytracer::{FX_MAX, FX_ONE};

const S: i64 = 65536;

#[test]
fn add_and_sub_are_exact_in_range() {
    assert_eq!(fx_add(3 * S, 4 * S), 7 * S);
    assert_eq!(fx_sub(3 * S, 4 * S), -S);
    assert_eq!(fx_neg(5 * S), -5 * S);
}

#[test]
fn add_clamps_at_the_representable_bound() {
    assert_eq!(fx_add(FX_MAX, FX_MAX), FX_MAX);
    assert_eq!(fx_sub(-FX_MAX, FX_MAX), -FX_MAX);
}

#[test]
fn mul_matches_real_multiplication() {
    assert_eq!(fx_mul(2 * S, 3 * S), 6 * S);
    assert_eq!(fx_mul(-2 * S, 3 * S), -6 * S);
    assert_eq!(fx_mul(S / 2, S / 2), S / 4);
    assert_eq!(fx_mul(0, 12345), 0);
}

#[test]
fn div_matches_real_division_and_zero_divisor_gives_zero() {
    assert_eq!(fx_div(6 * S, 3 * S), 2 * S);
    assert_eq!(fx_div(-6 * S, 3 * S), -2 * S);
    assert_eq!(fx_div(S, 2 * S), S / 2);
    assert_eq!(fx_div(12345, 0), 0);
}

#[test]
fn sqrt_is_exact_on_perfect_squares() {
    assert_eq!(fx_sqrt(4 * S), 2 * S);
    assert_eq!(fx_sqrt(25 * S), 5 * S);
    assert_eq!(fx_sqrt(S), S);
    assert_eq!(fx_sqrt(0), 0);
    assert_eq!(fx_sqrt(-S), 0);
}

#[test]
fn sqrt_truncates_toward_zero() {
    let two = fx_sqrt(2 * S);
    let real = (two as f64) / (S as f64);
    assert!((real - std::f64::consts::SQRT_2).abs() < 1e-4);
    assert!((two as i128) * (two as i128) <= (2 * S as i128) * (S as i128));
}

#[test]
fn pow_is_repeated_fixed_multiplication() {
    assert_eq!(fx_pow(2 * S, 0), S);
    assert_eq!(fx_pow(2 * S, 10), 1024 * S);
    assert_eq!(fx_pow(S / 2, 2), S / 4);
    assert_eq!(fx_pow(0, 3), 0);
}

#[test]
fn min_max_clamp() {
    assert_eq!(fx_min(3, 4), 3);
    assert_eq!(fx_max(3, 4), 4);
    assert_eq!(fx_clamp(5 * S, 0, S), S);
    assert_eq!(fx_clamp(-5 * S, 0, S), 0);
    assert_eq!(fx_clamp(S / 3, 0, S), S / 3);
}

#[test]
fn quantization_covers_the_byte_range() {
    assert_eq!(to_u8(0), 0);
    assert_eq!(to_u8(FX_ONE), 255);
    assert_eq!(to_u8(-3 * S), 0);
    assert_eq!(to_u8(7 * S), 255);
    assert_eq!(to_u8(S / 2), 128);
    assert_eq!(to_u8(S / 255), 1);
}
