//! Decoded image data: width, height and row-major RGB bytes.
//!
//! Decoding itself is an outside concern; the library receives the plain
//! bytes and serves clamped pixel lookups from them.

use vstd::prelude::*;

verus! {

/// A decoded image, or nothing when loading failed; lookups on a missing
/// image answer with solid magenta as a debugging aid.
pub struct RTWImage {
    pub data: Option<Vec<u8>>,
    pub image_width: usize,
    pub image_height: usize,
    pub bytes_per_scanline: usize,
}

/// Present image data is consistent: positive dimensions, three bytes per
/// pixel, and a full row-major byte buffer.
pub open spec fn rtw_wf(img: RTWImage) -> bool {
    img.data matches Option::Some(v) ==> {
        &&& 1 <= img.image_width < 0x1_0000_0000
        &&& 1 <= img.image_height < 0x1_0000_0000
        &&& img.bytes_per_scanline == img.image_width * 3
        &&& v@.len() == img.image_width * 3 * img.image_height
    }
}

/// The value clamped to the half-open range `[low, high)`.
pub open spec fn clamp_index_spec(x: int, low: int, high: int) -> int {
    if x < low {
        low
    } else if x < high {
        x
    } else {
        high - 1
    }
}

/// Decide whether the image data is consistent, so unverified callers can
/// establish it.
pub fn check_rtw_wf(img: &RTWImage) -> (r: bool)
    ensures
        r == rtw_wf(*img),
{
    match &img.data {
        Option::None => true,
        Option::Some(v) => {
            if img.image_width < 1 || img.image_height < 1 {
                return false;
            }
            if (img.image_width as u64) >= 0x1_0000_0000 || (img.image_height as u64)
                >= 0x1_0000_0000 {
                return false;
            }
            proof {
                assert((img.image_width as int) * 3 * (img.image_height as int)
                    < 0x1_0000_0000_0000_0000_0000) by (nonlinear_arith)
                    requires
                        0 <= img.image_width < 0x1_0000_0000,
                        0 <= img.image_height < 0x1_0000_0000,
                ;
                assert((img.image_width as int) * 3 < 0x1_0000_0000_0000_0000_0000)
                    by (nonlinear_arith)
                    requires
                        0 <= img.image_width < 0x1_0000_0000,
                ;
            }
            (img.bytes_per_scanline as u128) == (img.image_width as u128) * 3 && (v.len() as u128)
                == (img.image_width as u128) * 3 * (img.image_height as u128)
        },
    }
}

impl RTWImage {
    /// An image with no data yet.
    pub fn new() -> (r: RTWImage)
        ensures
            r.data is None,
            r.image_width == 0,
            r.image_height == 0,
            rtw_wf(r),
    {
        RTWImage { data: Option::None, image_width: 0, image_height: 0, bytes_per_scanline: 0 }
    }

    /// Take ownership of decoded pixels: accepted exactly when the
    /// dimensions are positive and the buffer holds three bytes per pixel.
    pub fn load(&mut self, width: usize, height: usize, data: Vec<u8>) -> (ok: bool)
        ensures
            ok == (1 <= width < 0x1_0000_0000 && 1 <= height < 0x1_0000_0000 && data@.len()
                == width * 3 * height),
            ok ==> *final(self) == (RTWImage {
                data: Option::Some(data),
                image_width: width,
                image_height: height,
                bytes_per_scanline: (width * 3) as usize,
            }),
            !ok ==> *final(self) == *old(self),
            rtw_wf(*old(self)) ==> rtw_wf(*final(self)),
    {
        if width < 1 || height < 1 {
            return false;
        }
        if (width as u64) >= 0x1_0000_0000 || (height as u64) >= 0x1_0000_0000 {
            return false;
        }
        proof {
            assert((width as int) * 3 * (height as int) < 0x1_0000_0000_0000_0000_0000)
                by (nonlinear_arith)
                requires
                    0 <= width < 0x1_0000_0000,
                    0 <= height < 0x1_0000_0000,
            ;
        }
        let expected = (width as u128) * 3 * (height as u128);
        if (data.len() as u128) != expected {
            return false;
        }
        proof {
            assert((width as int) * 3 <= (width as int) * 3 * (height as int))
                by (nonlinear_arith)
                requires
                    height >= 1,
                    width >= 0,
            ;
        }
        self.image_height = height;
        self.image_width = width;
        self.bytes_per_scanline = width * 3;
        self.data = Option::Some(data);
        true
    }

    pub fn height(&self) -> (r: usize)
        ensures
            r == self.image_height,
    {
        self.image_height
    }

    pub fn width(&self) -> (r: usize)
        ensures
            r == self.image_width,
    {
        self.image_width
    }

    /// The RGB bytes of the pixel at `(x, y)`, clamped into the image;
    /// magenta when no data is present.
    pub fn pixel_data(&self, x: usize, y: usize) -> (rgb: (u8, u8, u8))
        requires
            rtw_wf(*self),
        ensures
            self.data is None ==> rgb == (255u8, 0u8, 255u8),
            self.data matches Option::Some(v) ==> {
                let cx = clamp_index_spec(x as int, 0, self.image_width as int);
                let cy = clamp_index_spec(y as int, 0, self.image_height as int);
                let i = cy * self.bytes_per_scanline + cx * 3;
                rgb == (v@[i], v@[i + 1], v@[i + 2])
            },
    {
        match &self.data {
            Option::None => (255, 0, 255),
            Option::Some(v) => {
                let x = RTWImage::clamp(x, 0, self.image_width);
                let y = RTWImage::clamp(y, 0, self.image_height);
                proof {
                    assert(v.len() == v@.len());
                    assert(v@.len() <= usize::MAX);
                    let w = self.image_width as int;
                    let h = self.image_height as int;
                    let bps = self.bytes_per_scanline as int;
                    assert((y as int) * bps + (x as int) * 3 + 2 < w * 3 * h)
                        by (nonlinear_arith)
                        requires
                            0 <= x as int <= w - 1,
                            0 <= y as int <= h - 1,
                            w >= 1,
                            h >= 1,
                            bps == w * 3,
                    ;
                }
                let i = y * self.bytes_per_scanline + x * 3;
                (v[i], v[i + 1], v[i + 2])
            },
        }
    }

    /// The value clamped to the half-open range `[low, high)`.
    fn clamp(x: usize, low: usize, high: usize) -> (r: usize)
        requires
            low < high,
        ensures
            r == clamp_index_spec(x as int, low as int, high as int),
            low <= r < high,
    {
        if x < low {
            low
        } else if x < high {
            x
        } else {
            high - 1
        }
    }
}

} // verus!
