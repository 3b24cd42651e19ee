//! Exact-value tests of the fixed-point kernel and the random source.

use rtweekend::fixed::{ediv, emod, fp_add, fp_div, fp_floor, fp_frac, fp_mul, fp_neg, fp_sqrt, fp_sub, FP_ONE};
use rtweekend::rng::{random_fraction, random_int_range, random_range, Rng};
use rtweekend::trig::{fp_acos, fp_atan2, fp_ln, fp_sin, FP_HALF_PI, FP_PI, FP_TWO_PI};

const S: i64 = FP_ONE;

#[test]
fn fixed_add_sub_saturate() {
    assert_eq!(fp_add(3 * S, 4 * S), 7 * S);
    assert_eq!(fp_sub(3 * S, 4 * S), -S);
    assert_eq!(fp_add(i64::MAX, 1), i64::MAX);
    assert_eq!(fp_sub(i64::MIN, 1), i64::MIN);
    assert_eq!(fp_neg(i64::MIN), i64::MAX);
}

#[test]
fn fixed_mul_truncates_toward_zero() {
    assert_eq!(fp_mul(2 * S, 3 * S), 6 * S);
    assert_eq!(fp_mul(-2 * S, 3 * S), -6 * S);
    // 1/65536 * 1/65536 is below the resolution and truncates to zero.
    assert_eq!(fp_mul(1, 1), 0);
    assert_eq!(fp_mul(-1, 1), 0);
}

#[test]
fn fixed_div_matches_reals_and_zero_gives_infinities() {
    assert_eq!(fp_div(6 * S, 3 * S), 2 * S);
    assert_eq!(fp_div(1 * S, 2 * S), S / 2);
    assert_eq!(fp_div(-1 * S, 2 * S), -S / 2);
    assert_eq!(fp_div(5, 0), i64::MAX);
    assert_eq!(fp_div(-5, 0), i64::MIN);
    assert_eq!(fp_div(0, 0), 0);
}

#[test]
fn fixed_sqrt_exact_squares() {
    assert_eq!(fp_sqrt(0), 0);
    assert_eq!(fp_sqrt(S), S);
    assert_eq!(fp_sqrt(4 * S), 2 * S);
    assert_eq!(fp_sqrt(9 * S), 3 * S);
    // sqrt(2) in 16.16 fixed point.
    assert_eq!(fp_sqrt(2 * S), 92681);
}

#[test]
fn fixed_floor_and_frac() {
    assert_eq!(fp_floor(3 * S + 17), 3);
    assert_eq!(fp_floor(-3 * S - 17), -4);
    assert_eq!(fp_frac(3 * S + 17), 17);
    assert_eq!(fp_frac(-3 * S - 17), S - 17);
    assert_eq!(ediv(-7, 2), -4);
    assert_eq!(emod(-7, 2), 1);
}

#[test]
fn trig_known_values() {
    // The sine approximation is exact at multiples of pi.
    assert_eq!(fp_sin(0), 0);
    assert_eq!(fp_sin(FP_PI), 0);
    // Near one at pi/2.
    let s = fp_sin(FP_HALF_PI);
    assert!((s - S).abs() < 400, "sin(pi/2) = {s}");
    assert!(fp_sin(FP_PI + FP_HALF_PI) < -S + 400);
    // atan2 on the axes.
    assert_eq!(fp_atan2(0, S), 0);
    let q = fp_atan2(S, 0);
    assert!((q - FP_HALF_PI).abs() < 2, "atan2(1,0) = {q}");
    // acos at the ends of its domain.
    assert!(fp_acos(S).abs() < 2);
    assert!((fp_acos(-S) - FP_PI).abs() < 40);
    assert!(FP_TWO_PI == 2 * FP_PI);
}

#[test]
fn log_of_fractions() {
    assert_eq!(fp_ln(0), i64::MIN);
    assert_eq!(fp_ln(-5), i64::MIN);
    assert_eq!(fp_ln(S), 0);
    // ln(1/2) = -0.6931...
    let l = fp_ln(S / 2);
    assert!((l + 45426).abs() < 400, "ln(0.5) = {l}");
    assert!(fp_ln(S / 16) < fp_ln(S / 2));
}

#[test]
fn random_source_is_deterministic_and_in_range() {
    let mut a = Rng::new(7);
    let mut b = Rng::new(7);
    for _ in 0..100 {
        let x = random_fraction(&mut a);
        let y = random_fraction(&mut b);
        assert_eq!(x, y);
        assert!((0..S).contains(&x));
    }
    let mut c = Rng::new(99);
    for _ in 0..100 {
        let v = random_int_range(&mut c, -3, 5);
        assert!((-3..5).contains(&v));
        let w = random_range(&mut c, -S, S);
        assert!(w >= -S && w < S);
    }
}
