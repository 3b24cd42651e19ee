//! The image-backed texture.

use vstd::prelude::*;

use crate::fixed::FP_ONE;
use crate::fixed::fp_div;
use crate::fixed::fp_div_spec;
use crate::fixed::fp_mul;
use crate::fixed::fp_mul_spec;
use crate::interval::Interval;
use crate::interval::clamp_spec;
use crate::rtw_image::RTWImage;
use crate::rtw_image::clamp_index_spec;
use crate::rtw_image::rtw_wf;
use crate::vec3::Vec3;

verus! {

/// A texture sampling a decoded image by surface coordinates.
pub struct ImageTexture {
    pub image: RTWImage,
}

/// A byte channel rescaled from `[0, 255]` into a fixed-point fraction of
/// `[0, 1]`: the exact quotient `b / 255`, truncated.
pub open spec fn byte_to_fp_spec(b: u8) -> i64 {
    fp_div_spec((b as int) * (FP_ONE as int), 255 * FP_ONE as int) as i64
}

/// The solid cyan a texture without data answers, a debugging aid.
pub open spec fn image_missing_color() -> Vec3 {
    Vec3 { x: 0, y: 72089, z: 72089 }
}

/// The color the image texture answers: cyan when there is no image; else
/// the surface coordinates are clamped into the unit square, `v` flipped
/// into image row order, scaled to pixel indices, and the pixel's bytes
/// rescaled into fractions.
pub open spec fn image_value_spec(t: ImageTexture, u: i64, v: i64) -> Vec3 {
    if t.image.image_height == 0 {
        image_missing_color()
    } else {
        let cu = clamp_spec(Interval { min: 0, max: FP_ONE }, u);
        let cv = (FP_ONE - clamp_spec(Interval { min: 0, max: FP_ONE }, v)) as i64;
        let i = fp_mul_spec(cu as int, (t.image.image_width * FP_ONE) as int) / (FP_ONE as int);
        let j = fp_mul_spec(cv as int, (t.image.image_height * FP_ONE) as int) / (FP_ONE as int);
        match t.image.data {
            Option::None => image_missing_color(),
            Option::Some(d) => {
                let cx = clamp_index_spec(i, 0, t.image.image_width as int);
                let cy = clamp_index_spec(j, 0, t.image.image_height as int);
                let off = cy * t.image.bytes_per_scanline + cx * 3;
                Vec3 {
                    x: byte_to_fp_spec(d@[off]),
                    y: byte_to_fp_spec(d@[off + 1]),
                    z: byte_to_fp_spec(d@[off + 2]),
                }
            },
        }
    }
}

impl ImageTexture {
    /// A texture over already-decoded image data.
    pub fn new(image: RTWImage) -> (r: ImageTexture)
        requires
            rtw_wf(image),
        ensures
            r.image == image,
            rtw_wf(r.image),
    {
        ImageTexture { image }
    }

    /// Sample the image at clamped surface coordinates.
    pub fn value(&self, u: i64, v: i64, _p: Vec3) -> (r: Vec3)
        requires
            rtw_wf(self.image),
        ensures
            r == image_value_spec(*self, u, v),
    {
        if self.image.height() == 0 {
            return Vec3::new(0, 72089, 72089);
        }
        match &self.image.data {
            Option::None => Vec3::new(0, 72089, 72089),
            Option::Some(_) => {
                let unit = Interval::new(0, FP_ONE);
                let cu = unit.clamp(u);
                let cv = FP_ONE - unit.clamp(v);

                let wfp = (self.image.width() as i64) * FP_ONE;
                let hfp = (self.image.height() as i64) * FP_ONE;
                let i = crate::fixed::fp_floor(fp_mul(cu, wfp));
                let j = crate::fixed::fp_floor(fp_mul(cv, hfp));
                proof {
                    vstd::arithmetic::div_mod::lemma_div_is_ordered(
                        i64::MIN as int,
                        fp_mul_spec(cu as int, wfp as int),
                        FP_ONE as int,
                    );
                    vstd::arithmetic::div_mod::lemma_div_is_ordered(
                        i64::MIN as int,
                        fp_mul_spec(cv as int, hfp as int),
                        FP_ONE as int,
                    );
                }
                let iu: usize = if i < 0 {
                    0
                } else if i >= (self.image.width() as i64) {
                    self.image.width()
                } else {
                    i as usize
                };
                let ju: usize = if j < 0 {
                    0
                } else if j >= (self.image.height() as i64) {
                    self.image.height()
                } else {
                    j as usize
                };
                proof {
                    assert(clamp_index_spec(iu as int, 0, self.image.image_width as int)
                        == clamp_index_spec(
                        fp_mul_spec(cu as int, wfp as int) / (FP_ONE as int),
                        0,
                        self.image.image_width as int,
                    ));
                    assert(clamp_index_spec(ju as int, 0, self.image.image_height as int)
                        == clamp_index_spec(
                        fp_mul_spec(cv as int, hfp as int) / (FP_ONE as int),
                        0,
                        self.image.image_height as int,
                    ));
                }
                let pixel = self.image.pixel_data(iu, ju);

                let r = fp_div((pixel.0 as i64) * FP_ONE, 255 * FP_ONE);
                let g = fp_div((pixel.1 as i64) * FP_ONE, 255 * FP_ONE);
                let b = fp_div((pixel.2 as i64) * FP_ONE, 255 * FP_ONE);
                Vec3 { x: r, y: g, z: b }
            },
        }
    }
}

} // verus!
