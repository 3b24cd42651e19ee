//! The metallic material: mirror reflection with fuzz.

use vstd::prelude::*;

use crate::fixed::FP_ONE;
use crate::hittable::HitRecord;
use crate::ray::Ray;
use crate::rng::Rng;
use crate::vec3::SAMPLE_TRIES;
use crate::vec3::Vec3;
use crate::vec3::dot_spec;
use crate::vec3::random_unit_vector;
use crate::vec3::random_unit_vector_spec;
use crate::vec3::reflect;
use crate::vec3::reflect_spec;
use crate::vec3::sample_in_ball_spec;
use crate::vec3::unit_spec;
use crate::vec3::unit_vector;
use crate::vec3::vec_add_spec;
use crate::vec3::vec_scale_spec;

verus! {

/// A reflective surface: its color and the fuzz radius perturbing the
/// reflection (at most one).
pub struct Metal {
    pub albedo: Vec3,
    pub fuzz: i64,
}

/// Metallic scattering: reflect the unit incoming direction about the
/// normal, perturb by `fuzz` times a random unit vector, and absorb the ray
/// when the perturbed direction points into the surface.
pub open spec fn metal_scatter_spec(m: Metal, r_in: Ray, rec: HitRecord, s: u64) -> (
    Option<(Vec3, Ray)>,
    u64,
) {
    let reflected = reflect_spec(unit_spec(r_in.direction), rec.normal);
    let direction = vec_add_spec(reflected, vec_scale_spec(random_unit_vector_spec(s), m.fuzz));
    let scattered = Ray { origin: rec.p, direction, tm: r_in.tm };
    let result = if dot_spec(direction, rec.normal) > 0 {
        Option::Some((m.albedo, scattered))
    } else {
        Option::None
    };
    (result, sample_in_ball_spec(s, SAMPLE_TRIES as nat).1)
}

impl Metal {
    /// A metal of the given color; the fuzz is clamped to at most one.
    pub fn new(a: Vec3, f: i64) -> (r: Metal)
        ensures
            r.albedo == a,
            r.fuzz == if f < FP_ONE {
                f
            } else {
                FP_ONE as i64
            },
    {
        let fuzz = if f < FP_ONE {
            f
        } else {
            FP_ONE
        };
        Metal { albedo: a, fuzz }
    }

    /// Reflect with fuzz; absorb rays scattered into the surface.
    pub fn scatter(&self, r_in: &Ray, rec: &HitRecord, rng: &mut Rng) -> (r: Option<(Vec3, Ray)>)
        ensures
            r == metal_scatter_spec(*self, *r_in, *rec, old(rng)@).0,
            final(rng)@ == metal_scatter_spec(*self, *r_in, *rec, old(rng)@).1,
    {
        let reflected = reflect(unit_vector(r_in.direction()), rec.normal);
        let scattered = Ray::new_timed(
            rec.p,
            reflected.plus(random_unit_vector(rng).scale(self.fuzz)),
            r_in.time(),
        );
        if scattered.direction().dot(rec.normal) > 0 {
            Option::Some((self.albedo, scattered))
        } else {
            Option::None
        }
    }
}

} // verus!
