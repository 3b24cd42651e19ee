//! Rays: an origin, a direction, and a time within the shutter interval.

use vstd::prelude::*;

use crate::vec3::Vec3;
use crate::vec3::vec_add_spec;
use crate::vec3::vec_scale_spec;

verus! {

/// A ray `origin + t * direction`, carrying the moment in `[0, 1]` at which
/// it samples the (possibly moving) scene.
#[derive(Clone, Copy, Debug, PartialEq, Eq, Structural)]
pub struct Ray {
    pub origin: Vec3,
    pub direction: Vec3,
    pub tm: i64,
}

/// The point the ray reaches at parameter `t`.
pub open spec fn ray_at_spec(r: Ray, t: i64) -> Vec3 {
    vec_add_spec(r.origin, vec_scale_spec(r.direction, t))
}

impl Ray {
    /// A ray at time zero.
    pub fn new(origin: Vec3, direction: Vec3) -> (r: Ray)
        ensures
            r == (Ray { origin, direction, tm: 0 }),
    {
        Ray { origin, direction, tm: 0 }
    }

    /// A ray sampling the scene at moment `tm`.
    pub fn new_timed(origin: Vec3, direction: Vec3, tm: i64) -> (r: Ray)
        ensures
            r == (Ray { origin, direction, tm }),
    {
        Ray { origin, direction, tm }
    }

    pub fn origin(&self) -> (r: Vec3)
        ensures
            r == self.origin,
    {
        self.origin
    }

    pub fn direction(&self) -> (r: Vec3)
        ensures
            r == self.direction,
    {
        self.direction
    }

    pub fn time(&self) -> (r: i64)
        ensures
            r == self.tm,
    {
        self.tm
    }

    /// The point the ray reaches at parameter `t`.
    pub fn at(&self, t: i64) -> (r: Vec3)
        ensures
            r == ray_at_spec(*self, t),
    {
        self.origin.plus(self.direction.scale(t))
    }
}

} // verus!
