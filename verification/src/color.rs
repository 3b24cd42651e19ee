//! Pixel finishing: average the samples, gamma-correct, clamp and quantize
//! to 8-bit channels.

use vstd::prelude::*;

use crate::fixed::FP_ONE;
use crate::fixed::fp_div;
use crate::fixed::fp_div_spec;
use crate::fixed::fp_floor;
use crate::fixed::fp_mul;
use crate::fixed::fp_mul_spec;
use crate::fixed::fp_sqrt;
use crate::fixed::fp_sqrt_spec;
use crate::interval::Interval;
use crate::interval::clamp_spec;
use crate::vec3::Vec3;

verus! {

/// The upper clamp of a channel before quantization, just under one.
pub const INTENSITY_MAX: i64 = 65470;

/// The quantization factor, just under 256.
pub const QUANT_SCALE: i64 = 16777150;

/// Gamma correction by square root; negative accumulations (which cannot
/// arise from non-negative sample colors) are clamped to zero first.
pub open spec fn linear_to_gamma_spec(linear_component: int) -> int {
    fp_sqrt_spec(
        if linear_component < 0 {
            0
        } else {
            linear_component
        },
    )
}

/// One channel quantized: averaged over the samples, gamma-corrected,
/// clamped into `[0, 1)` and scaled to an 8-bit integer.
pub open spec fn quantize_spec(x: int, scale: int) -> int {
    let avg = fp_mul_spec(x, scale);
    let gamma = linear_to_gamma_spec(avg);
    let clamped = clamp_spec(Interval { min: 0, max: INTENSITY_MAX }, gamma as i64);
    fp_mul_spec(clamped as int, QUANT_SCALE as int) / (FP_ONE as int)
}

/// The translated 8-bit triple of an accumulated pixel color.
pub open spec fn write_color_spec(pixel_color: Vec3, samples_per_pixel: u32) -> (u8, u8, u8) {
    let scale = fp_div_spec(FP_ONE as int, (samples_per_pixel as int) * (FP_ONE as int));
    (
        quantize_spec(pixel_color.x as int, scale) as u8,
        quantize_spec(pixel_color.y as int, scale) as u8,
        quantize_spec(pixel_color.z as int, scale) as u8,
    )
}

/// Gamma correction by square root.
pub fn linear_to_gamma(linear_component: i64) -> (r: i64)
    ensures
        r as int == linear_to_gamma_spec(linear_component as int),
        r >= 0,
{
    if linear_component < 0 {
        fp_sqrt(0)
    } else {
        fp_sqrt(linear_component)
    }
}

fn quantize(x: i64, scale: i64) -> (r: u8)
    ensures
        r as int == quantize_spec(x as int, scale as int),
{
    let avg = fp_mul(x, scale);
    let gamma = linear_to_gamma(avg);
    let intensity = Interval::new(0, INTENSITY_MAX);
    let clamped = intensity.clamp(gamma);
    let scaled = fp_floor(fp_mul(clamped, QUANT_SCALE));
    proof {
        crate::fixed::lemma_fp_mul_nonneg(clamped as int, QUANT_SCALE as int);
        vstd::arithmetic::div_mod::lemma_div_pos_is_pos(
            fp_mul_spec(clamped as int, QUANT_SCALE as int),
            FP_ONE as int,
        );
        assert(fp_mul_spec(clamped as int, QUANT_SCALE as int) <= (INTENSITY_MAX as int)
            * (QUANT_SCALE as int) / (FP_ONE as int)) by {
            assert((clamped as int) * (QUANT_SCALE as int) <= (INTENSITY_MAX as int) * (
            QUANT_SCALE as int)) by (nonlinear_arith)
                requires
                    0 <= clamped <= INTENSITY_MAX,
                    QUANT_SCALE > 0,
            ;
            vstd::arithmetic::div_mod::lemma_div_is_ordered(
                (clamped as int) * (QUANT_SCALE as int),
                (INTENSITY_MAX as int) * (QUANT_SCALE as int),
                FP_ONE as int,
            );
        }
        vstd::arithmetic::div_mod::lemma_div_is_ordered(
            0,
            fp_mul_spec(clamped as int, QUANT_SCALE as int),
            FP_ONE as int,
        );
    }
    scaled as u8
}

/// The 8-bit triple of an accumulated pixel color: each channel averaged,
/// gamma-corrected, clamped and scaled; every channel lands in `[0, 255]`.
pub fn write_color(pixel_color: Vec3, samples_per_pixel: u32) -> (rgb: (u8, u8, u8))
    requires
        samples_per_pixel >= 1,
    ensures
        rgb == write_color_spec(pixel_color, samples_per_pixel),
{
    let n = (samples_per_pixel as i64) * FP_ONE;
    let scale = fp_div(FP_ONE, n);
    let r = quantize(pixel_color.x, scale);
    let g = quantize(pixel_color.y, scale);
    let b = quantize(pixel_color.z, scale);
    (r, g, b)
}

} // verus!
