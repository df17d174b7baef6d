use map_camera::angles::{HALF_PI_FIX, PI_FIX, atan2_fix, cos_fix, sin_fix};
use map_camera::fixed::{
    FIX_LIMIT, FIX_ONE, fix_abs, fix_add, fix_div, fix_lerp, fix_mul, fix_neg, fix_sub,
};
use map_camera::vectors::{Vec2Fix, Vec3Fix};

fn to_f(v: i64) -> f64 {
    v as f64 / 1_000_000.0
}

#[test]
fn mul_is_exact_on_small_values() {
    assert_eq!(fix_mul(2_000_000, 3_000_000), 6_000_000);
    assert_eq!(fix_mul(900_000, 10_000_000), 9_000_000);
    assert_eq!(fix_mul(-500_000, 4_000_000), -2_000_000);
}

#[test]
fn mul_truncates_toward_zero() {
    assert_eq!(fix_mul(1, 1), 0);
    assert_eq!(fix_mul(-1, 1), 0);
}

#[test]
fn mul_saturates_at_the_limit() {
    assert_eq!(fix_mul(FIX_LIMIT, FIX_LIMIT), FIX_LIMIT);
    assert_eq!(fix_mul(-FIX_LIMIT, FIX_LIMIT), -FIX_LIMIT);
}

#[test]
fn add_and_sub_saturate() {
    assert_eq!(fix_add(FIX_LIMIT, FIX_LIMIT), FIX_LIMIT);
    assert_eq!(fix_sub(-FIX_LIMIT, FIX_LIMIT), -FIX_LIMIT);
    assert_eq!(fix_add(1_000_000, 2_000_000), 3_000_000);
}

#[test]
fn div_is_exact_on_even_ratios() {
    assert_eq!(fix_div(6_000_000, 3_000_000), 2_000_000);
    assert_eq!(fix_div(-6_000_000, 3_000_000), -2_000_000);
    assert_eq!(fix_div(6_000_000, -3_000_000), -2_000_000);
}

#[test]
fn neg_abs_lerp() {
    assert_eq!(fix_neg(5), -5);
    assert_eq!(fix_abs(-7_000_000), 7_000_000);
    assert_eq!(fix_lerp(0, 10_000_000, 500_000), 5_000_000);
}

#[test]
fn vector_length_is_exact_on_pythagorean_triples() {
    let v = Vec3Fix { x: 3_000_000, y: 4_000_000, z: 0 };
    assert_eq!(v.length(), 5_000_000);
    let w = Vec2Fix { x: 3_000_000, y: 4_000_000 };
    assert_eq!(w.length(), 5_000_000);
}

#[test]
fn vector_distance() {
    let a = Vec2Fix { x: 1_000_000, y: 0 };
    let b = Vec2Fix { x: -1_000_000, y: 0 };
    assert_eq!(a.distance(b), 2_000_000);
}

#[test]
fn sine_matches_the_real_sine_closely() {
    let samples: Vec<i64> = vec![
        0,
        436_332,
        HALF_PI_FIX,
        PI_FIX,
        -HALF_PI_FIX,
        2_000_000,
        -2_500_000,
        7_000_000,
    ];
    for &x in samples.iter() {
        let got = to_f(sin_fix(x));
        let want = to_f(x).sin();
        assert!((got - want).abs() < 5e-4, "sin({}) = {} vs {}", to_f(x), got, want);
    }
}

#[test]
fn cosine_matches_the_real_cosine_closely() {
    let samples: Vec<i64> = vec![0, 436_332, HALF_PI_FIX, PI_FIX, -2_000_000, 5_000_000];
    for &x in samples.iter() {
        let got = to_f(cos_fix(x));
        let want = to_f(x).cos();
        assert!((got - want).abs() < 5e-4, "cos({}) = {} vs {}", to_f(x), got, want);
    }
}

#[test]
fn sine_of_zero_is_zero() {
    assert_eq!(sin_fix(0), 0);
    // The cosine goes through the quarter-wave polynomial at its far end.
    assert!((cos_fix(0) - 1_000_000).abs() < 500);
}

#[test]
fn atan2_matches_the_real_atan2_closely() {
    let samples: Vec<(i64, i64)> = vec![
        (0, 1_000_000),
        (1_000_000, 0),
        (-1_000_000, 0),
        (1_000_000, 1_000_000),
        (-3_000_000, 4_000_000),
        (6_000_000, -2_000_000),
        (-5_000_000, -5_000_000),
        (8_500_000, 10_000_000),
    ];
    for &(y, x) in samples.iter() {
        let got = to_f(atan2_fix(y, x));
        let want = to_f(y).atan2(to_f(x));
        assert!((got - want).abs() < 6e-3, "atan2({}, {}) = {} vs {}", y, x, got, want);
    }
}

#[test]
fn atan2_of_origin_is_zero() {
    assert_eq!(atan2_fix(0, 0), 0);
}
