//! Exact behavior of the fixed-point scalar operations.

use iris::fixed::Fx;

#[test]
fn fx_mul_exact() {
    // 2.5 * 0.4 == 1.0
    assert_eq!(Fx::new(2_500_000).mul(Fx::new(400_000)).raw, 1_000_000);
}

#[test]
fn fx_mul_truncates_toward_zero() {
    // -1.5 * 0.333333 == -0.4999995, truncated toward zero
    assert_eq!(Fx::new(-1_500_000).mul(Fx::new(333_333)).raw, -499_999);
    assert_eq!(Fx::new(1_500_000).mul(Fx::new(-333_333)).raw, -499_999);
}

#[test]
fn fx_div_exact() {
    assert_eq!(Fx::one().div(Fx::new(4_000_000)).raw, 250_000);
    // division by zero yields zero
    assert_eq!(Fx::one().div(Fx::zero()).raw, 0);
}

#[test]
fn fx_sqrt_values() {
    assert_eq!(Fx::new(4_000_000).sqrt().raw, 2_000_000);
    // sqrt(2) rounded down at the sixth decimal
    assert_eq!(Fx::new(2_000_000).sqrt().raw, 1_414_213);
    // nonpositive inputs yield zero
    assert_eq!(Fx::new(-1_000_000).sqrt().raw, 0);
    assert_eq!(Fx::zero().sqrt().raw, 0);
}

#[test]
fn fx_add_saturates() {
    let top = Fx::new(i64::MAX);
    assert_eq!(top.add(Fx::one()).raw, i64::MAX);
    let bottom = Fx::new(-i64::MAX);
    assert_eq!(bottom.sub(Fx::one()).raw, -i64::MAX);
}

#[test]
fn fx_abs_neg() {
    assert_eq!(Fx::new(-5).abs().raw, 5);
    assert_eq!(Fx::new(5).neg().raw, -5);
}

#[test]
fn fx_trig_values() {
    // sin(0) == 0, sin of a quarter turn == 1 exactly in this approximation
    assert_eq!(Fx::zero().sin_turn().raw, 0);
    assert_eq!(Fx::new(250_000).sin_turn().raw, 1_000_000);
    // three-quarter turn: -1
    assert_eq!(Fx::new(750_000).sin_turn().raw, -1_000_000);
    // cos(0) == 1, cos of a half turn == -1
    assert_eq!(Fx::zero().cos_turn().raw, 1_000_000);
    assert_eq!(Fx::new(500_000).cos_turn().raw, -1_000_000);
}

#[test]
fn fx_trig_stays_in_range() {
    let mut u: i64 = 0;
    while u < 1_000_000 {
        let s = Fx::new(u).sin_turn().raw;
        let c = Fx::new(u).cos_turn().raw;
        assert!((-1_000_000..=1_000_000).contains(&s));
        assert!((-1_000_000..=1_000_000).contains(&c));
        u += 9_973;
    }
}

#[test]
fn fx_clamp_min_max() {
    let lo = Fx::new(-1_000_000);
    let hi = Fx::one();
    assert_eq!(Fx::new(2_000_000).clamp(lo, hi).raw, 1_000_000);
    assert_eq!(Fx::new(-2_000_000).clamp(lo, hi).raw, -1_000_000);
    assert_eq!(Fx::new(42).clamp(lo, hi).raw, 42);
    assert_eq!(Fx::new(3).min(Fx::new(7)).raw, 3);
    assert_eq!(Fx::new(3).max(Fx::new(7)).raw, 7);
}
