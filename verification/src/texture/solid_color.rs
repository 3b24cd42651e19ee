//! The constant texture.

use vstd::prelude::*;

use crate::vec3::Vec3;

verus! {

/// A texture that answers every lookup with one color.
pub struct SolidColor {
    pub color_value: Vec3,
}

impl SolidColor {
    pub fn new(c: Vec3) -> (r: SolidColor)
        ensures
            r.color_value == c,
    {
        SolidColor { color_value: c }
    }

    /// The color, whatever the surface coordinates.
    pub fn value(&self) -> (r: Vec3)
        ensures
            r == self.color_value,
    {
        self.color_value
    }
}

} // verus!
