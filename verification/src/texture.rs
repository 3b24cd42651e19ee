//! Color lookup by surface coordinate: constant, checkered, noise-driven,
//! or image-backed, as a closed sum type.

pub mod checkered;
pub mod image;
pub mod noise;
pub mod solid_color;

use vstd::prelude::*;

use crate::vec3::Vec3;
use checkered::Checkered;
use image::ImageTexture;
use noise::NoiseTexture;
use solid_color::SolidColor;

verus! {

/// Every kind of texture the materials consume.
pub enum Texture {
    SolidColor(SolidColor),
    Checkered(Checkered),
    Noise(NoiseTexture),
    Image(ImageTexture),
}

/// The texture's tables and image data are consistent.
pub open spec fn texture_wf(t: Texture) -> bool
    decreases t,
{
    match t {
        Texture::SolidColor(_) => true,
        Texture::Checkered(c) => texture_wf(*c.even) && texture_wf(*c.odd),
        Texture::Noise(n) => crate::texture::noise::perlin::perlin_wf(n.noise),
        Texture::Image(i) => crate::rtw_image::rtw_wf(i.image),
    }
}

/// The color a texture answers at surface coordinates `(u, v)` and point
/// `p`.
pub open spec fn texture_value_spec(t: Texture, u: i64, v: i64, p: Vec3) -> Vec3
    decreases t,
{
    match t {
        Texture::SolidColor(s) => s.color_value,
        Texture::Checkered(c) => {
            if checkered::checker_is_even_spec(c.inv_scale, p) {
                texture_value_spec(*c.even, u, v, p)
            } else {
                texture_value_spec(*c.odd, u, v, p)
            }
        },
        Texture::Noise(n) => noise::noise_value_spec(n, p),
        Texture::Image(i) => image::image_value_spec(i, u, v),
    }
}

impl Texture {
    /// Decide well-formedness, so unverified callers can establish it before
    /// using the texture.
    pub fn check_wf(&self) -> (r: bool)
        ensures
            r == texture_wf(*self),
        decreases self,
    {
        match self {
            Texture::SolidColor(_) => true,
            Texture::Checkered(c) => c.even.check_wf() && c.odd.check_wf(),
            Texture::Noise(n) => crate::texture::noise::perlin::check_perlin_wf(&n.noise),
            Texture::Image(i) => crate::rtw_image::check_rtw_wf(&i.image),
        }
    }

    /// Look up the color at surface coordinates `(u, v)` and point `p`.
    pub fn value(&self, u: i64, v: i64, p: Vec3) -> (r: Vec3)
        requires
            texture_wf(*self),
        ensures
            r == texture_value_spec(*self, u, v, p),
        decreases self,
    {
        match self {
            Texture::SolidColor(s) => s.value(),
            Texture::Checkered(c) => {
                if checkered::checker_is_even(c.inv_scale, p) {
                    c.even.value(u, v, p)
                } else {
                    c.odd.value(u, v, p)
                }
            },
            Texture::Noise(n) => n.value(u, v, p),
            Texture::Image(i) => i.value(u, v, p),
        }
    }
}

} // verus!
