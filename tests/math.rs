use three_d::math::{isqrt, length_wide, normalize_wide, Vec3, SCALE};

#[test]
fn isqrt_rounds_down() {
    assert_eq!(isqrt(0), 0);
    assert_eq!(isqrt(1), 1);
    assert_eq!(isqrt(15), 3);
    assert_eq!(isqrt(16), 4);
    assert_eq!(isqrt(16_250_000_000_000), 4_031_128);
    let big: u128 = (1u128 << 126) - 1;
    assert_eq!(isqrt(big), (1u128 << 63) - 1);
}

#[test]
fn length_and_normalize() {
    assert_eq!(length_wide((3, 4, 12)), 13);
    assert_eq!(normalize_wide((0, 0, 0)), None);
    assert_eq!(normalize_wide((0, -7, 0)), Some(Vec3::new(0, -SCALE, 0)));
    assert_eq!(normalize_wide((3, 4, 0)), Some(Vec3::new(600_000, 800_000, 0)));
}

#[test]
fn vec3_distance() {
    let a = Vec3::new(-3 * SCALE, SCALE, 2_500_000);
    assert_eq!(a.distance(&Vec3::zero()), 4_031_128);
}
