//! The checker texture: two textures alternating on a cubic lattice.

use vstd::prelude::*;

use crate::fixed::emod;
use crate::fixed::fp_floor;
use crate::fixed::fp_mul;
use crate::fixed::fp_mul_spec;
use crate::fixed::FP_ONE;
use crate::texture::Texture;
use crate::texture::solid_color::SolidColor;
use crate::vec3::Vec3;

verus! {

/// Two textures alternating between the even and odd cells of a cubic
/// lattice whose pitch is the reciprocal of `inv_scale`.
pub struct Checkered {
    pub inv_scale: i64,
    pub even: Box<Texture>,
    pub odd: Box<Texture>,
}

/// The point lies in an even lattice cell: the parity of the sum of the
/// floors of the scaled coordinates.
pub open spec fn checker_is_even_spec(inv_scale: i64, p: Vec3) -> bool {
    let xi = fp_mul_spec(inv_scale as int, p.x as int) / (FP_ONE as int);
    let yi = fp_mul_spec(inv_scale as int, p.y as int) / (FP_ONE as int);
    let zi = fp_mul_spec(inv_scale as int, p.z as int) / (FP_ONE as int);
    (xi + yi + zi) % 2 == 0
}

/// Whether the point lies in an even lattice cell.
pub fn checker_is_even(inv_scale: i64, p: Vec3) -> (r: bool)
    ensures
        r == checker_is_even_spec(inv_scale, p),
{
    let x_integer = fp_floor(fp_mul(inv_scale, p.x));
    let y_integer = fp_floor(fp_mul(inv_scale, p.y));
    let z_integer = fp_floor(fp_mul(inv_scale, p.z));
    proof {
        vstd::arithmetic::div_mod::lemma_div_is_ordered(
            i64::MIN as int,
            fp_mul_spec(inv_scale as int, p.x as int),
            FP_ONE as int,
        );
        vstd::arithmetic::div_mod::lemma_div_is_ordered(
            fp_mul_spec(inv_scale as int, p.x as int),
            i64::MAX as int,
            FP_ONE as int,
        );
        vstd::arithmetic::div_mod::lemma_div_is_ordered(
            i64::MIN as int,
            fp_mul_spec(inv_scale as int, p.y as int),
            FP_ONE as int,
        );
        vstd::arithmetic::div_mod::lemma_div_is_ordered(
            fp_mul_spec(inv_scale as int, p.y as int),
            i64::MAX as int,
            FP_ONE as int,
        );
        vstd::arithmetic::div_mod::lemma_div_is_ordered(
            i64::MIN as int,
            fp_mul_spec(inv_scale as int, p.z as int),
            FP_ONE as int,
        );
        vstd::arithmetic::div_mod::lemma_div_is_ordered(
            fp_mul_spec(inv_scale as int, p.z as int),
            i64::MAX as int,
            FP_ONE as int,
        );
        vstd::arithmetic::div_mod::lemma_add_mod_noop(
            x_integer as int + y_integer as int,
            z_integer as int,
            2,
        );
    }
    emod(x_integer + y_integer + z_integer, 2) == 0
}

impl Checkered {
    /// A checker of two solid colors at the given scale.
    pub fn from_colors(scale: i64, c1: Vec3, c2: Vec3) -> (r: Checkered)
        ensures
            r.inv_scale == scale,
            *r.even == Texture::SolidColor(SolidColor { color_value: c1 }),
            *r.odd == Texture::SolidColor(SolidColor { color_value: c2 }),
    {
        Checkered {
            inv_scale: scale,
            even: Box::new(Texture::SolidColor(SolidColor::new(c1))),
            odd: Box::new(Texture::SolidColor(SolidColor::new(c2))),
        }
    }
}

} // verus!
