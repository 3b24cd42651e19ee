//! The marble-like noise texture.

pub mod perlin;

use vstd::prelude::*;

use crate::fixed::FP_ONE;
use crate::fixed::fp_add;
use crate::fixed::fp_add_spec;
use crate::fixed::fp_mul;
use crate::fixed::fp_mul_spec;
use crate::trig::fp_sin;
use crate::trig::fp_sin_spec;
use crate::vec3::Vec3;
use crate::vec3::vec_scale_spec;
use perlin::Perlin;
use perlin::turb_spec;

verus! {

/// How many octaves of turbulence drive the marble bands.
pub const TURB_DEPTH: u32 = 7;

/// Perlin noise swept into marble bands at a spatial scale.
pub struct NoiseTexture {
    pub noise: Perlin,
    pub scale: i64,
}

/// The marble color: gray bands `(1 + sin(z' + 10 turb(p'))) / 2` of the
/// scaled point, the same value on each channel.
pub open spec fn noise_value_spec(n: NoiseTexture, p: Vec3) -> Vec3 {
    let s = vec_scale_spec(p, n.scale);
    let band = fp_sin_spec(
        fp_add_spec(
            s.z as int,
            fp_mul_spec(10 * FP_ONE as int, turb_spec(n.noise, s, TURB_DEPTH as nat)),
        ) as i64,
    );
    let c = fp_mul_spec(fp_mul_spec(FP_ONE as int, 32768), fp_add_spec(FP_ONE as int, band)) as i64;
    Vec3 { x: c, y: c, z: c }
}

impl NoiseTexture {
    /// A marble texture over fresh noise tables at the given scale.
    pub fn new(scale: i64, rng: &mut crate::rng::Rng) -> (r: NoiseTexture)
        ensures
            r.scale == scale,
            perlin::perlin_wf(r.noise),
    {
        NoiseTexture { noise: Perlin::new(rng), scale }
    }

    /// The marble color at a point (the surface coordinates are unused).
    pub fn value(&self, _u: i64, _v: i64, p: Vec3) -> (r: Vec3)
        requires
            perlin::perlin_wf(self.noise),
        ensures
            r == noise_value_spec(*self, p),
    {
        let s = p.scale(self.scale);
        let band = fp_sin(fp_add(s.z, fp_mul(10 * FP_ONE, self.noise.turb(s, TURB_DEPTH))));
        let c = fp_mul(fp_mul(FP_ONE, 32768), fp_add(FP_ONE, band));
        Vec3 { x: c, y: c, z: c }
    }
}

} // verus!
