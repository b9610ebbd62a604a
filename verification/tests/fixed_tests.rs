//! Exact values of the fixed-point scalar operations.

use raytracer_core::fixed::FX_ONE;
use raytracer_core::fixed::fx_clamp;
use raytracer_core::fixed::fx_div;
use raytracer_core::fixed::fx_mul;
use raytracer_core::fixed::isqrt;

#[test]
fn isqrt_exact_values() {
    assert_eq!(isqrt(0), 0);
    assert_eq!(isqrt(1), 1);
    assert_eq!(isqrt(3), 1);
    assert_eq!(isqrt(4), 2);
    assert_eq!(isqrt(15), 3);
    assert_eq!(isqrt(16), 4);
    assert_eq!(isqrt(4294967296), 65536);
    assert_eq!(isqrt(u64::MAX), 4294967295);
}

#[test]
fn fx_mul_scales_products() {
    assert_eq!(fx_mul(3 * FX_ONE, 2 * FX_ONE), 6 * FX_ONE);
    assert_eq!(fx_mul(-3 * FX_ONE, 2 * FX_ONE), -6 * FX_ONE);
    assert_eq!(fx_mul(FX_ONE / 2, FX_ONE / 2), FX_ONE / 4);
    assert_eq!(fx_mul(FX_ONE, 0), 0);
    assert_eq!(fx_mul(0, -FX_ONE), 0);
}

#[test]
fn fx_mul_truncates_toward_zero() {
    assert_eq!(fx_mul(-1, 1), 0);
    assert_eq!(fx_mul(1, -1), 0);
    assert_eq!(fx_mul(-FX_ONE - 1, 1), -1);
}

#[test]
fn fx_div_scales_quotients() {
    assert_eq!(fx_div(FX_ONE, 2 * FX_ONE), FX_ONE / 2);
    assert_eq!(fx_div(6 * FX_ONE, 3 * FX_ONE), 2 * FX_ONE);
    assert_eq!(fx_div(-6 * FX_ONE, 3 * FX_ONE), -2 * FX_ONE);
    assert_eq!(fx_div(0, 7), 0);
}

#[test]
fn fx_clamp_pins_to_interval() {
    assert_eq!(fx_clamp(5, 0, 10), 5);
    assert_eq!(fx_clamp(-5, 0, 10), 0);
    assert_eq!(fx_clamp(50, 0, 10), 10);
    assert_eq!(fx_clamp(i64::MIN, -FX_ONE, FX_ONE), -FX_ONE);
}
