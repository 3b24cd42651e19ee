//! The dielectric material: reflection or Snell refraction by Schlick's
//! approximation.

use vstd::prelude::*;

use crate::fixed::FP_ONE;
use crate::fixed::fp_add;
use crate::fixed::fp_add_spec;
use crate::fixed::fp_div;
use crate::fixed::fp_div_spec;
use crate::fixed::fp_mul;
use crate::fixed::fp_mul_spec;
use crate::fixed::fp_sqrt;
use crate::fixed::fp_sqrt_spec;
use crate::fixed::fp_sub;
use crate::fixed::fp_sub_spec;
use crate::hittable::HitRecord;
use crate::ray::Ray;
use crate::rng::Rng;
use crate::rng::random_fraction;
use crate::rng::rng_fraction;
use crate::rng::rng_step;
use crate::vec3::Vec3;
use crate::vec3::dot_spec;
use crate::vec3::refract;
use crate::vec3::refract_spec;
use crate::vec3::reflect;
use crate::vec3::reflect_spec;
use crate::vec3::unit_spec;
use crate::vec3::unit_vector;
use crate::vec3::vec_neg_spec;

verus! {

/// A clear surface with an index of refraction.
pub struct Dielectric {
    pub ir: i64,
}

/// Schlick's reflectance approximation at a cosine and index ratio:
/// `r0 + (1 - r0) (1 - cos)^5` with `r0 = ((1 - n) / (1 + n))^2`.
pub open spec fn reflectance_spec(cosine: int, ref_idx: int) -> int {
    let r0 = fp_div_spec(fp_sub_spec(FP_ONE as int, ref_idx), fp_add_spec(FP_ONE as int, ref_idx));
    let r0sq = fp_mul_spec(r0, r0);
    let m = fp_sub_spec(FP_ONE as int, cosine);
    let m2 = fp_mul_spec(m, m);
    let m4 = fp_mul_spec(m2, m2);
    let m5 = fp_mul_spec(m4, m);
    fp_add_spec(r0sq, fp_mul_spec(fp_sub_spec(FP_ONE as int, r0sq), m5))
}

/// The cosine the dielectric uses: the incoming unit direction against the
/// normal, capped at one.
pub open spec fn dielectric_cos_spec(r_in: Ray, rec: HitRecord) -> int {
    let unit_direction = unit_spec(r_in.direction);
    let d = dot_spec(rec.normal, vec_neg_spec(unit_direction));
    if d > FP_ONE as int {
        FP_ONE as int
    } else {
        d
    }
}

/// The sine from the cosine: `sqrt(1 - cos^2)`, with a negative radicand
/// (possible only for an oversized cosine from a non-unit normal) clamped
/// to zero.
pub open spec fn dielectric_sin_spec(cos_theta: int) -> int {
    let c = fp_sub_spec(FP_ONE as int, fp_mul_spec(cos_theta, cos_theta));
    fp_sqrt_spec(
        if c < 0 {
            0
        } else {
            c
        },
    )
}

/// Total internal reflection: the refraction ratio times the sine exceeds
/// one, so Snell's law has no solution.
pub open spec fn cannot_refract_spec(refraction_ratio: int, sin_theta: int) -> bool {
    fp_mul_spec(refraction_ratio, sin_theta) > FP_ONE as int
}

/// Dielectric scattering: always scatters with white attenuation; reflects
/// on total internal reflection, or when a uniform draw falls below the
/// Schlick reflectance (no draw happens under total internal reflection);
/// otherwise refracts by Snell's law.
pub open spec fn dielectric_scatter_spec(d: Dielectric, r_in: Ray, rec: HitRecord, s: u64) -> (
    Option<(Vec3, Ray)>,
    u64,
) {
    let white = Vec3 { x: FP_ONE, y: FP_ONE, z: FP_ONE };
    let refraction_ratio = if rec.front_face {
        fp_div_spec(FP_ONE as int, d.ir as int) as i64
    } else {
        d.ir
    };
    let unit_direction = unit_spec(r_in.direction);
    let cos_theta = dielectric_cos_spec(r_in, rec);
    let sin_theta = dielectric_sin_spec(cos_theta);
    if cannot_refract_spec(refraction_ratio as int, sin_theta) {
        let direction = reflect_spec(unit_direction, rec.normal);
        (Option::Some((white, Ray { origin: rec.p, direction, tm: r_in.tm })), s)
    } else {
        let direction = if reflectance_spec(cos_theta, refraction_ratio as int) > rng_fraction(
            s,
        ) as int {
            reflect_spec(unit_direction, rec.normal)
        } else {
            refract_spec(unit_direction, rec.normal, refraction_ratio)
        };
        (Option::Some((white, Ray { origin: rec.p, direction, tm: r_in.tm })), rng_step(s))
    }
}

impl Dielectric {
    pub fn new(index_of_refraction: i64) -> (r: Dielectric)
        ensures
            r.ir == index_of_refraction,
    {
        Dielectric { ir: index_of_refraction }
    }

    /// Schlick's approximation for reflectance.
    pub fn reflectance(&self, cosine: i64, ref_idx: i64) -> (r: i64)
        ensures
            r as int == reflectance_spec(cosine as int, ref_idx as int),
    {
        let mut r0 = fp_div(fp_sub(FP_ONE, ref_idx), fp_add(FP_ONE, ref_idx));
        r0 = fp_mul(r0, r0);
        let m = fp_sub(FP_ONE, cosine);
        let m2 = fp_mul(m, m);
        let m4 = fp_mul(m2, m2);
        let m5 = fp_mul(m4, m);
        fp_add(r0, fp_mul(fp_sub(FP_ONE, r0), m5))
    }

    /// Reflect or refract at the surface; the attenuation is always white.
    pub fn scatter(&self, r_in: &Ray, rec: &HitRecord, rng: &mut Rng) -> (r: Option<(Vec3, Ray)>)
        ensures
            r == dielectric_scatter_spec(*self, *r_in, *rec, old(rng)@).0,
            final(rng)@ == dielectric_scatter_spec(*self, *r_in, *rec, old(rng)@).1,
    {
        let attenuation = Vec3::new(FP_ONE, FP_ONE, FP_ONE);
        let refraction_ratio = if rec.front_face {
            fp_div(FP_ONE, self.ir)
        } else {
            self.ir
        };

        let unit_direction = unit_vector(r_in.direction());
        let d = rec.normal.dot(unit_direction.negate());
        let cos_theta = if d > FP_ONE {
            FP_ONE
        } else {
            d
        };
        let c = fp_sub(FP_ONE, fp_mul(cos_theta, cos_theta));
        let sin_theta = fp_sqrt(
            if c < 0 {
                0
            } else {
                c
            },
        );

        let cannot_refract = fp_mul(refraction_ratio, sin_theta) > FP_ONE;
        let direction = if cannot_refract {
            reflect(unit_direction, rec.normal)
        } else {
            let u = random_fraction(rng);
            if self.reflectance(cos_theta, refraction_ratio) > u {
                reflect(unit_direction, rec.normal)
            } else {
                refract(unit_direction, rec.normal, refraction_ratio)
            }
        };

        let scattered = Ray::new_timed(rec.p, direction, r_in.time());
        Option::Some((attenuation, scattered))
    }
}

/// At normal incidence the sine vanishes, so no index ratio can cause total
/// internal reflection.
pub proof fn lemma_normal_incidence_never_reflects_totally(refraction_ratio: int)
    ensures
        !cannot_refract_spec(refraction_ratio, dielectric_sin_spec(FP_ONE as int)),
{
    let c = fp_sub_spec(FP_ONE as int, fp_mul_spec(FP_ONE as int, FP_ONE as int));
    assert(fp_mul_spec(FP_ONE as int, FP_ONE as int) == FP_ONE as int) by {
        vstd::arithmetic::div_mod::lemma_div_multiples_vanish(FP_ONE as int, FP_ONE as int);
        assert((FP_ONE as int) * (FP_ONE as int) == (FP_ONE as int) * (FP_ONE as int));
    }
    assert(c == 0);
    crate::fixed::lemma_isqrt_unique(0, 0);
    assert(dielectric_sin_spec(FP_ONE as int) == 0);
    assert(fp_mul_spec(refraction_ratio, 0) == 0) by {
        assert(refraction_ratio * 0 == 0) by (nonlinear_arith);
        vstd::arithmetic::div_mod::lemma_div_of0(FP_ONE as int);
    }
}

} // verus!
