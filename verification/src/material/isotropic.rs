//! The isotropic phase function of a participating medium.

use vstd::prelude::*;

use crate::hittable::HitRecord;
use crate::ray::Ray;
use crate::rng::Rng;
use crate::texture::Texture;
use crate::texture::solid_color::SolidColor;
use crate::texture::texture_value_spec;
use crate::texture::texture_wf;
use crate::vec3::SAMPLE_TRIES;
use crate::vec3::Vec3;
use crate::vec3::random_unit_vector;
use crate::vec3::random_unit_vector_spec;
use crate::vec3::sample_in_ball_spec;

verus! {

/// A phase function scattering uniformly in all directions.
pub struct Isotropic {
    pub albedo: Texture,
}

/// Isotropic scattering: a uniform random unit direction independent of the
/// incoming ray; the attenuation is the albedo at the hit. Always scatters.
pub open spec fn isotropic_scatter_spec(i: Isotropic, r_in: Ray, rec: HitRecord, s: u64) -> (
    Option<(Vec3, Ray)>,
    u64,
) {
    (
        Option::Some(
            (
                texture_value_spec(i.albedo, rec.u, rec.v, rec.p),
                Ray { origin: rec.p, direction: random_unit_vector_spec(s), tm: r_in.tm },
            ),
        ),
        sample_in_ball_spec(s, SAMPLE_TRIES as nat).1,
    )
}

impl Isotropic {
    /// An isotropic scatterer sampling a texture.
    pub fn new(albedo: Texture) -> (r: Isotropic)
        ensures
            r.albedo == albedo,
    {
        Isotropic { albedo }
    }

    /// An isotropic scatterer of one solid color.
    pub fn from_color(c: Vec3) -> (r: Isotropic)
        ensures
            r.albedo == Texture::SolidColor(SolidColor { color_value: c }),
    {
        Isotropic { albedo: Texture::SolidColor(SolidColor::new(c)) }
    }

    /// Scatter into a uniform random direction.
    pub fn scatter(&self, r_in: &Ray, rec: &HitRecord, rng: &mut Rng) -> (r: Option<(Vec3, Ray)>)
        requires
            texture_wf(self.albedo),
        ensures
            r == isotropic_scatter_spec(*self, *r_in, *rec, old(rng)@).0,
            final(rng)@ == isotropic_scatter_spec(*self, *r_in, *rec, old(rng)@).1,
    {
        let scattered = Ray::new_timed(rec.p, random_unit_vector(rng), r_in.time());
        let attenuation = self.albedo.value(rec.u, rec.v, rec.p);
        Option::Some((attenuation, scattered))
    }
}

} // verus!
