//! A participating medium of constant density inside a boundary object.

use vstd::prelude::*;

use crate::fixed::FP_ONE;
use crate::fixed::fp_add;
use crate::fixed::fp_add_spec;
use crate::fixed::fp_div;
use crate::fixed::fp_div_spec;
use crate::fixed::fp_mul;
use crate::fixed::fp_mul_spec;
use crate::fixed::fp_sqrt;
use crate::fixed::fp_sqrt_spec;
use crate::fixed::fp_sub;
use crate::fixed::fp_sub_spec;
use crate::fixed::lemma_fp_div_mul_le;
use crate::fixed::lemma_fp_div_nonneg;
use crate::hittable::HitRecord;
use crate::hittable::Hittable;
use crate::hittable::wf;
use crate::interval::Interval;
use crate::interval::interval_universe;
use crate::ray::Ray;
use crate::ray::ray_at_spec;
use crate::rng::Rng;
use crate::rng::random_fraction;
use crate::rng::rng_fraction;
use crate::rng::rng_step;
use crate::trig::fp_ln;
use crate::trig::fp_ln_spec;
use crate::vec3::Vec3;
use crate::vec3::norm2_spec;

verus! {

/// The offset past the entry hit at which the exit probe starts, so the
/// second probe cannot return the entry again.
pub const MEDIUM_STEP: i64 = 7;

/// A boundary with a well-defined interior, the negative inverse of the
/// medium's density, and the handle of its isotropic phase function.
pub struct ConstantMedium {
    pub boundary: Box<Hittable>,
    pub neg_inv_density: i64,
    pub phase_function: usize,
}

/// Intersection with the medium, for a generator at state `s`: find the
/// boundary's entry over the whole line and its exit just past the entry
/// (threading the state through both probes), clip the segment to the query
/// range and to non-negative parameters, then sample an exponential
/// free-flight distance from a uniform draw; a scattering event registers
/// only if it falls within the segment. The second component is the
/// generator state after the call.
pub open spec fn medium_hit_spec(m: ConstantMedium, r: Ray, ray_t: Interval, s: u64) -> (
    Option<HitRecord>,
    u64,
)
    decreases m, 0int,
{
    let probe1 = crate::hittable::hit_rng_spec(*m.boundary, r, interval_universe(), s);
    match probe1.0 {
        Option::None => (Option::None, probe1.1),
        Option::Some(rec1) => match crate::hittable::hit_rng_spec(
            *m.boundary,
            r,
            Interval { min: fp_add_spec(rec1.t as int, MEDIUM_STEP as int) as i64, max: i64::MAX },
            probe1.1,
        ).0 {
            Option::None => (
                Option::None,
                crate::hittable::hit_rng_spec(
                    *m.boundary,
                    r,
                    Interval {
                        min: fp_add_spec(rec1.t as int, MEDIUM_STEP as int) as i64,
                        max: i64::MAX,
                    },
                    probe1.1,
                ).1,
            ),
            Option::Some(rec2) => {
                let s2 = crate::hittable::hit_rng_spec(
                    *m.boundary,
                    r,
                    Interval {
                        min: fp_add_spec(rec1.t as int, MEDIUM_STEP as int) as i64,
                        max: i64::MAX,
                    },
                    probe1.1,
                ).1;
                let entry = if rec1.t < ray_t.min {
                    ray_t.min
                } else {
                    rec1.t
                };
                let t1 = if entry < 0 {
                    0
                } else {
                    entry
                };
                let t2 = if rec2.t > ray_t.max {
                    ray_t.max
                } else {
                    rec2.t
                };
                if t1 >= t2 {
                    (Option::None, s2)
                } else {
                    let ray_length = fp_sqrt_spec(norm2_spec(r.direction)) as i64;
                    let distance_inside = fp_mul_spec(
                        fp_sub_spec(t2 as int, t1 as int),
                        ray_length as int,
                    ) as i64;
                    let hd = fp_mul_spec(m.neg_inv_density as int, fp_ln_spec(rng_fraction(s2)))
                        as i64;
                    let hit_distance = if hd < 0 {
                        0
                    } else {
                        hd
                    };
                    if hit_distance > distance_inside {
                        (Option::None, rng_step(s2))
                    } else {
                        let t = fp_add_spec(
                            t1 as int,
                            fp_div_spec(hit_distance as int, ray_length as int),
                        ) as i64;
                        (
                            Option::Some(
                                HitRecord {
                                    p: ray_at_spec(r, t),
                                    normal: Vec3 { x: FP_ONE, y: 0, z: 0 },
                                    mat: m.phase_function,
                                    t,
                                    front_face: true,
                                    u: 0,
                                    v: 0,
                                },
                            ),
                            rng_step(s2),
                        )
                    }
                }
            },
        },
    }
}

impl ConstantMedium {
    /// A medium of density `density` inside `boundary`, scattering with an
    /// isotropic phase function over the given texture; the phase function
    /// joins the scene's material arena and is referenced by handle.
    pub fn new(
        boundary: Hittable,
        density: i64,
        a: crate::texture::Texture,
        materials: &mut Vec<crate::material::Material>,
    ) -> (r: ConstantMedium)
        requires
            density > 0,
        ensures
            *r.boundary == boundary,
            r.neg_inv_density as int == fp_div_spec(-(FP_ONE as int), density as int),
            r.phase_function == old(materials)@.len(),
            final(materials)@ == old(materials)@.push(
                crate::material::Material::Isotropic(crate::material::isotropic::Isotropic { albedo: a }),
            ),
    {
        let phase_function = materials.len();
        materials.push(
            crate::material::Material::Isotropic(crate::material::isotropic::Isotropic::new(a)),
        );
        ConstantMedium {
            boundary: Box::new(boundary),
            neg_inv_density: fp_div(-FP_ONE, density),
            phase_function,
        }
    }

    /// A medium whose phase function scatters one solid color.
    pub fn from_color(
        boundary: Hittable,
        density: i64,
        c: Vec3,
        materials: &mut Vec<crate::material::Material>,
    ) -> (r: ConstantMedium)
        requires
            density > 0,
        ensures
            *r.boundary == boundary,
            r.neg_inv_density as int == fp_div_spec(-(FP_ONE as int), density as int),
            r.phase_function == old(materials)@.len(),
            final(materials)@ == old(materials)@.push(
                crate::material::Material::Isotropic(
                    crate::material::isotropic::Isotropic {
                        albedo: crate::texture::Texture::SolidColor(
                            crate::texture::solid_color::SolidColor { color_value: c },
                        ),
                    },
                ),
            ),
    {
        let phase_function = materials.len();
        materials.push(
            crate::material::Material::Isotropic(
                crate::material::isotropic::Isotropic::from_color(c),
            ),
        );
        ConstantMedium {
            boundary: Box::new(boundary),
            neg_inv_density: fp_div(-FP_ONE, density),
            phase_function,
        }
    }

    /// Probe the boundary for the ray's passage through the medium and
    /// sample a scattering event along it.
    pub fn hit(&self, r: &Ray, ray_t: Interval, rng: &mut Rng) -> (res: Option<HitRecord>)
        ensures
            res == medium_hit_spec(*self, *r, ray_t, old(rng)@).0,
            final(rng)@ == medium_hit_spec(*self, *r, ray_t, old(rng)@).1,
            res matches Option::Some(rec) ==> ray_t.min <= rec.t <= ray_t.max,
            forall|n: int|
                #[trigger] wf(Hittable::Medium(*self), n) ==> (res matches Option::Some(rec)
                    ==> rec.mat < n),
        decreases self, 0int,
    {
        let rec1 = match self.boundary.hit(r, Interval::universe(), rng) {
            Option::None => {
                return Option::None;
            },
            Option::Some(rec1) => rec1,
        };
        let rec2 = match self.boundary.hit(
            r,
            Interval::new(fp_add(rec1.t, MEDIUM_STEP), i64::MAX),
            rng,
        ) {
            Option::None => {
                return Option::None;
            },
            Option::Some(rec2) => rec2,
        };

        let entry = if rec1.t < ray_t.min {
            ray_t.min
        } else {
            rec1.t
        };
        let t1 = if entry < 0 {
            0
        } else {
            entry
        };
        let t2 = if rec2.t > ray_t.max {
            ray_t.max
        } else {
            rec2.t
        };
        if t1 >= t2 {
            return Option::None;
        }

        let ray_length = fp_sqrt(r.direction().norm2());
        let distance_inside_boundary = fp_mul(fp_sub(t2, t1), ray_length);
        let u = random_fraction(rng);
        let hd = fp_mul(self.neg_inv_density, fp_ln(u));
        let hit_distance = if hd < 0 {
            0
        } else {
            hd
        };

        if hit_distance > distance_inside_boundary {
            return Option::None;
        }

        let step = fp_div(hit_distance, ray_length);
        proof {
            if ray_length > 0 {
                lemma_fp_div_nonneg(hit_distance as int, ray_length as int);
            } else {
                assert((fp_sub_spec(t2 as int, t1 as int)) * (ray_length as int) == 0)
                    by (nonlinear_arith)
                    requires
                        ray_length == 0,
                ;
                assert(crate::fixed::tdiv(0, FP_ONE as int) == 0) by {
                    vstd::arithmetic::div_mod::lemma_div_of0(FP_ONE as int);
                }
            }
            lemma_fp_div_mul_le(
                hit_distance as int,
                fp_sub_spec(t2 as int, t1 as int),
                ray_length as int,
            );
        }
        let t = fp_add(t1, step);

        let mut rec = HitRecord::new();
        rec.t = t;
        rec.p = r.at(t);
        rec.normal = Vec3::new(FP_ONE, 0, 0);
        rec.front_face = true;
        rec.mat = self.phase_function;
        Option::Some(rec)
    }
}

} // verus!
