//! The emissive material.

use vstd::prelude::*;

use crate::hittable::HitRecord;
use crate::ray::Ray;
use crate::rng::Rng;
use crate::texture::Texture;
use crate::texture::solid_color::SolidColor;
use crate::texture::texture_value_spec;
use crate::texture::texture_wf;
use crate::vec3::Vec3;

verus! {

/// A light source: emits its texture's value and never scatters.
pub struct DiffuseLight {
    pub emit: Texture,
}

impl DiffuseLight {
    /// A light emitting a texture.
    pub fn new(a: Texture) -> (r: DiffuseLight)
        ensures
            r.emit == a,
    {
        DiffuseLight { emit: a }
    }

    /// A light emitting one solid color.
    pub fn from_color(c: Vec3) -> (r: DiffuseLight)
        ensures
            r.emit == Texture::SolidColor(SolidColor { color_value: c }),
    {
        DiffuseLight { emit: Texture::SolidColor(SolidColor::new(c)) }
    }

    /// The emitted color, with no angular falloff.
    pub fn emitted(&self, u: i64, v: i64, p: Vec3) -> (r: Vec3)
        requires
            texture_wf(self.emit),
        ensures
            r == texture_value_spec(self.emit, u, v, p),
    {
        self.emit.value(u, v, p)
    }

    /// A light absorbs every ray: scattering always fails.
    pub fn scatter(&self, _r_in: &Ray, _rec: &HitRecord, rng: &mut Rng) -> (r: Option<(Vec3, Ray)>)
        ensures
            r is None,
            final(rng)@ == old(rng)@,
    {
        Option::None
    }
}

} // verus!
