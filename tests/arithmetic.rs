use tectonic_globe::fixed::{bump, clamp, isqrt, scale, UNIT};
use tectonic_globe::vector::{dist_sq, dot, normalize, Vec3};

#[test]
fn isqrt_exact_and_between_squares() {
    assert_eq!(isqrt(0), 0);
    assert_eq!(isqrt(1), 1);
    assert_eq!(isqrt(15), 3);
    assert_eq!(isqrt(16), 4);
    assert_eq!(isqrt(25_000_000_000_000), 5_000_000);
    assert_eq!(isqrt(999_997_790_472), 999_998);
}

#[test]
fn scale_rounds_toward_zero() {
    assert_eq!(scale(3, UNIT / 2), 1);
    assert_eq!(scale(-3, UNIT / 2), -1);
    assert_eq!(scale(400_000, 600_000), 240_000);
    assert_eq!(scale(-350_000, 4 * UNIT), -1_400_000);
}

#[test]
fn clamp_limits() {
    assert_eq!(clamp(-5, 0, 10), 0);
    assert_eq!(clamp(15, 0, 10), 10);
    assert_eq!(clamp(7, 0, 10), 7);
}

#[test]
fn bump_shape() {
    assert_eq!(bump(0), 0);
    assert_eq!(bump(UNIT), 0);
    assert_eq!(bump(UNIT / 2), UNIT);
    assert_eq!(bump(250_000), 705_882);
    assert_eq!(bump(750_000), 705_882);
}

#[test]
fn normalize_rescales_to_unit() {
    let v = normalize(Vec3 { x: 3 * UNIT, y: 0, z: 4 * UNIT }).unwrap();
    assert_eq!(v, Vec3 { x: 600_000, y: 0, z: 800_000 });
    let w = normalize(Vec3 { x: -3, y: 0, z: -4 }).unwrap();
    assert_eq!(w, Vec3 { x: -600_000, y: 0, z: -800_000 });
}

#[test]
fn normalize_zero_vector_has_no_direction() {
    assert_eq!(normalize(Vec3 { x: 0, y: 0, z: 0 }), None);
}

#[test]
fn dot_and_distance() {
    let a = Vec3 { x: UNIT, y: 0, z: 0 };
    let b = Vec3 { x: 0, y: UNIT, z: 0 };
    let c = Vec3 { x: -UNIT, y: 0, z: 0 };
    assert_eq!(dot(a, b), 0);
    assert_eq!(dot(a, c), -UNIT * UNIT);
    assert_eq!(dist_sq(a, b), 2 * UNIT * UNIT);
    assert_eq!(dist_sq(a, c), 4 * UNIT * UNIT);
}
