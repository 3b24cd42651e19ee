//! The scattering and emission model, as a closed sum type over the five
//! material kinds.

pub mod dielectric;
pub mod diffuse;
pub mod diffuse_light;
pub mod isotropic;
pub mod metal;

use vstd::prelude::*;

use crate::hittable::HitRecord;
use crate::ray::Ray;
use crate::rng::Rng;
use crate::texture::texture_value_spec;
use crate::texture::texture_wf;
use crate::vec3::Vec3;
use dielectric::Dielectric;
use diffuse::Lambertian;
use diffuse_light::DiffuseLight;
use isotropic::Isotropic;
use metal::Metal;

verus! {

/// Every kind of material a surface can carry.
pub enum Material {
    Lambertian(Lambertian),
    Metal(Metal),
    Dielectric(Dielectric),
    Isotropic(Isotropic),
    DiffuseLight(DiffuseLight),
}

/// The material's textures are consistent.
pub open spec fn material_wf(m: Material) -> bool {
    match m {
        Material::Lambertian(l) => texture_wf(l.albedo),
        Material::Metal(_) => true,
        Material::Dielectric(_) => true,
        Material::Isotropic(i) => texture_wf(i.albedo),
        Material::DiffuseLight(d) => texture_wf(d.emit),
    }
}

/// What a material emits at a surface coordinate: a diffuse light emits its
/// texture's value unconditionally, everything else is black.
pub open spec fn emitted_spec(m: Material, u: i64, v: i64, p: Vec3) -> Vec3 {
    match m {
        Material::DiffuseLight(d) => texture_value_spec(d.emit, u, v, p),
        _ => Vec3 { x: 0, y: 0, z: 0 },
    }
}

/// What a material does to an incoming ray at a hit, with the generator at
/// state `s`: nothing (absorption), or an attenuation color and a scattered
/// ray. The second component is the generator state after the call.
pub open spec fn scatter_spec(m: Material, r_in: Ray, rec: HitRecord, s: u64) -> (
    Option<(Vec3, Ray)>,
    u64,
) {
    match m {
        Material::Lambertian(l) => diffuse::lambertian_scatter_spec(l, r_in, rec, s),
        Material::Metal(mm) => metal::metal_scatter_spec(mm, r_in, rec, s),
        Material::Dielectric(d) => dielectric::dielectric_scatter_spec(d, r_in, rec, s),
        Material::Isotropic(i) => isotropic::isotropic_scatter_spec(i, r_in, rec, s),
        Material::DiffuseLight(_) => (Option::None, s),
    }
}

impl Material {
    /// Decide well-formedness, so unverified callers can establish it before
    /// using the material.
    pub fn check_wf(&self) -> (r: bool)
        ensures
            r == material_wf(*self),
    {
        match self {
            Material::Lambertian(l) => l.albedo.check_wf(),
            Material::Metal(_) => true,
            Material::Dielectric(_) => true,
            Material::Isotropic(i) => i.albedo.check_wf(),
            Material::DiffuseLight(d) => d.emit.check_wf(),
        }
    }

    /// The emitted color at a surface coordinate; black for everything but a
    /// diffuse light.
    pub fn emitted(&self, u: i64, v: i64, p: Vec3) -> (r: Vec3)
        requires
            material_wf(*self),
        ensures
            r == emitted_spec(*self, u, v, p),
    {
        match self {
            Material::DiffuseLight(d) => d.emitted(u, v, p),
            _ => Vec3::new(0, 0, 0),
        }
    }

    /// Scatter the incoming ray at the hit, or absorb it.
    pub fn scatter(&self, r_in: &Ray, rec: &HitRecord, rng: &mut Rng) -> (r: Option<(Vec3, Ray)>)
        requires
            material_wf(*self),
        ensures
            r == scatter_spec(*self, *r_in, *rec, old(rng)@).0,
            final(rng)@ == scatter_spec(*self, *r_in, *rec, old(rng)@).1,
    {
        match self {
            Material::Lambertian(l) => l.scatter(r_in, rec, rng),
            Material::Metal(mm) => mm.scatter(r_in, rec, rng),
            Material::Dielectric(d) => d.scatter(r_in, rec, rng),
            Material::Isotropic(i) => i.scatter(r_in, rec, rng),
            Material::DiffuseLight(d) => d.scatter(r_in, rec, rng),
        }
    }
}

} // verus!
