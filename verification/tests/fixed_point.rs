//! The saturating fixed-point scalar helpers.

use craft_mind::fx::{add_fx, clamp_i64, div_fx, isqrt_u128, mul_fx, rem_trunc, sub_fx, FX_MAX};

#[test]
fn products_rescale_and_keep_sign() {
    // 2.5 * 4.0 == 10.0
    assert_eq!(mul_fx(2_500, 4_000), 10_000);
    assert_eq!(mul_fx(-7_000, 2_000), -14_000);
    assert_eq!(mul_fx(7_000, -2_000), -14_000);
    assert_eq!(mul_fx(0, 123_456), 0);
    // truncation is toward zero on both sides
    assert_eq!(mul_fx(1, 1_500), 1);
    assert_eq!(mul_fx(-1, 1_500), -1);
}

#[test]
fn quotients_rescale_and_guard_the_divisor() {
    // 10.0 / 4.0 == 2.5
    assert_eq!(div_fx(10_000, 4_000), 2_500);
    assert_eq!(div_fx(-10_000, 4_000), -2_500);
    // a non-positive divisor yields zero instead of dividing
    assert_eq!(div_fx(5_000, 0), 0);
    assert_eq!(div_fx(5_000, -3), 0);
}

#[test]
fn sums_saturate_at_the_magnitude_bound() {
    assert_eq!(add_fx(FX_MAX, FX_MAX), FX_MAX);
    assert_eq!(add_fx(-FX_MAX, -FX_MAX), -FX_MAX);
    assert_eq!(add_fx(1_000, 2_000), 3_000);
    assert_eq!(sub_fx(1_000, 2_000), -1_000);
    assert_eq!(sub_fx(-FX_MAX, FX_MAX), -FX_MAX);
}

#[test]
fn clamping_is_idempotent() {
    let cases: [(i64, i64, i64); 5] = [
        (5, 0, 10),
        (-5, 0, 10),
        (15, 0, 10),
        (7, 7, 7),
        (-1_000_000, -10, 10),
    ];
    for &(v, lo, hi) in cases.iter() {
        let once = clamp_i64(v, lo, hi);
        assert_eq!(clamp_i64(once, lo, hi), once);
        assert!(lo <= once && once <= hi);
    }
}

#[test]
fn remainders_keep_the_sign_of_the_dividend() {
    assert_eq!(rem_trunc(7, 3), 1);
    assert_eq!(rem_trunc(-7, 3), -1);
    assert_eq!(rem_trunc(-6, 3), 0);
}

#[test]
fn integer_square_roots_are_floors() {
    assert_eq!(isqrt_u128(0), 0);
    assert_eq!(isqrt_u128(1), 1);
    assert_eq!(isqrt_u128(3), 1);
    assert_eq!(isqrt_u128(4), 2);
    assert_eq!(isqrt_u128(128_000_000), 11_313);
    assert_eq!(isqrt_u128(u128::from(u64::MAX)), 4_294_967_295);
}
