use particle_life::fixed::{div_floor, fixed_mul, isqrt, mod_euclid, remap, SCALE};

#[test]
fn div_floor_rounds_toward_negative_infinity() {
    assert_eq!(div_floor(7, 2), 3);
    assert_eq!(div_floor(-7, 2), -4);
    assert_eq!(div_floor(-8, 2), -4);
    assert_eq!(div_floor(0, 5), 0);
    assert_eq!(div_floor(-1, 1024), -1);
}

#[test]
fn mod_euclid_is_nonnegative() {
    assert_eq!(mod_euclid(7, 5), 2);
    assert_eq!(mod_euclid(-7, 5), 3);
    assert_eq!(mod_euclid(-10, 5), 0);
    assert_eq!(mod_euclid(0, 3), 0);
    assert_eq!(mod_euclid(-1, 102400), 102399);
}

#[test]
fn isqrt_exact_values() {
    assert_eq!(isqrt(0), 0);
    assert_eq!(isqrt(1), 1);
    assert_eq!(isqrt(15), 3);
    assert_eq!(isqrt(16), 4);
    assert_eq!(isqrt(51200 * 51200), 51200);
    assert_eq!(isqrt(u64::MAX >> 3), 1518500249);
}

#[test]
fn remap_matches_linear_interpolation() {
    // Halfway through [0, 100] toward [1024, 0] is 512.
    assert_eq!(remap(50, 0, 100, 1024, 0), 512);
    // At the range ends the ramp hits the endpoint values.
    assert_eq!(remap(0, 0, 100, 1024, 0), 1024);
    assert_eq!(remap(100, 0, 100, 1024, 0), 0);
    // Extrapolation below the range overshoots the peak.
    assert_eq!(remap(-50, 0, 100, 1024, 0), 1536);
}

#[test]
fn fixed_mul_scales_back_down() {
    assert_eq!(fixed_mul(2048, 512), 1024); // 2.0 * 0.5 == 1.0
    assert_eq!(fixed_mul(SCALE, SCALE), SCALE);
    assert_eq!(fixed_mul(-3, 1), -1); // floor, not truncation
    assert_eq!(fixed_mul(0, 123456), 0);
}
