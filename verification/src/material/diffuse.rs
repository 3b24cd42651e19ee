//! The Lambertian diffuse material.

use vstd::prelude::*;

use crate::hittable::HitRecord;
use crate::ray::Ray;
use crate::rng::Rng;
use crate::texture::Texture;
use crate::texture::solid_color::SolidColor;
use crate::texture::texture_value_spec;
use crate::texture::texture_wf;
use crate::vec3::SAMPLE_TRIES;
use crate::vec3::Vec3;
use crate::vec3::near_zero;
use crate::vec3::near_zero_spec;
use crate::vec3::random_unit_vector;
use crate::vec3::random_unit_vector_spec;
use crate::vec3::sample_in_ball_spec;
use crate::vec3::vec_add_spec;

verus! {

/// A diffuse surface: its albedo texture.
pub struct Lambertian {
    pub albedo: Texture,
}

/// Diffuse scattering: the direction is the surface normal plus a random
/// unit vector, falling back to the normal itself when that sum vanishes;
/// the attenuation is the albedo at the hit's surface coordinates. Always
/// scatters.
pub open spec fn lambertian_scatter_spec(l: Lambertian, r_in: Ray, rec: HitRecord, s: u64) -> (
    Option<(Vec3, Ray)>,
    u64,
) {
    let candidate = vec_add_spec(rec.normal, random_unit_vector_spec(s));
    let direction = if near_zero_spec(candidate) {
        rec.normal
    } else {
        candidate
    };
    (
        Option::Some(
            (
                texture_value_spec(l.albedo, rec.u, rec.v, rec.p),
                Ray { origin: rec.p, direction, tm: r_in.tm },
            ),
        ),
        sample_in_ball_spec(s, SAMPLE_TRIES as nat).1,
    )
}

impl Lambertian {
    /// A diffuse surface of one solid color.
    pub fn new(a: Vec3) -> (r: Lambertian)
        ensures
            r.albedo == Texture::SolidColor(SolidColor { color_value: a }),
    {
        Lambertian { albedo: Texture::SolidColor(SolidColor::new(a)) }
    }

    /// A diffuse surface sampling a texture.
    pub fn from_texture(a: Texture) -> (r: Lambertian)
        ensures
            r.albedo == a,
    {
        Lambertian { albedo: a }
    }

    /// Scatter toward the normal plus a random unit direction.
    pub fn scatter(&self, r_in: &Ray, rec: &HitRecord, rng: &mut Rng) -> (r: Option<(Vec3, Ray)>)
        requires
            texture_wf(self.albedo),
        ensures
            r == lambertian_scatter_spec(*self, *r_in, *rec, old(rng)@).0,
            final(rng)@ == lambertian_scatter_spec(*self, *r_in, *rec, old(rng)@).1,
    {
        let mut scatter_direction = rec.normal.plus(random_unit_vector(rng));

        if near_zero(scatter_direction) {
            scatter_direction = rec.normal;
        }

        let scattered = Ray::new_timed(rec.p, scatter_direction, r_in.time());
        let attenuation = self.albedo.value(rec.u, rec.v, rec.p);

        Option::Some((attenuation, scattered))
    }
}

} // verus!
