//! Axis-aligned bounding boxes: one interval per axis and the slab test.

use vstd::prelude::*;

use crate::fixed::fp_div;
use crate::fixed::fp_div_spec;
use crate::fixed::fp_sub;
use crate::fixed::fp_sub_spec;
use crate::interval::Interval;
use crate::interval::expand_spec;
use crate::interval::shrink_spec;
use crate::interval::union_spec;
use crate::ray::Ray;
use crate::vec3::Vec3;

verus! {

/// An axis-aligned box, the product of three axis intervals.
#[derive(Clone, Copy, Debug, PartialEq, Eq, Structural)]
pub struct Aabb {
    pub x: Interval,
    pub y: Interval,
    pub z: Interval,
}

/// The box spanned by two opposite corners, in either order.
pub open spec fn aabb_from_points_spec(a: Vec3, b: Vec3) -> Aabb {
    Aabb {
        x: Interval {
            min: if a.x <= b.x {
                a.x
            } else {
                b.x
            },
            max: if a.x >= b.x {
                a.x
            } else {
                b.x
            },
        },
        y: Interval {
            min: if a.y <= b.y {
                a.y
            } else {
                b.y
            },
            max: if a.y >= b.y {
                a.y
            } else {
                b.y
            },
        },
        z: Interval {
            min: if a.z <= b.z {
                a.z
            } else {
                b.z
            },
            max: if a.z >= b.z {
                a.z
            } else {
                b.z
            },
        },
    }
}

/// The smallest box containing both boxes.
pub open spec fn aabb_union_spec(box0: Aabb, box1: Aabb) -> Aabb {
    Aabb {
        x: union_spec(box0.x, box1.x),
        y: union_spec(box0.y, box1.y),
        z: union_spec(box0.z, box1.z),
    }
}

/// The axis interval by index: 1 is y, 2 is z, anything else x.
pub open spec fn aabb_axis_spec(b: Aabb, n: int) -> Interval {
    if n == 1 {
        b.y
    } else if n == 2 {
        b.z
    } else {
        b.x
    }
}

/// The query interval narrowed by one slab: the entry and exit parameters of
/// the axis, swapped for a negative direction component. A zero component
/// divides to the signed infinities, so the slab constrains nothing when the
/// origin lies between the planes and empties the interval when outside.
pub open spec fn slab_spec(axis: Interval, orig: i64, dir: i64, t: Interval) -> Interval {
    let t0 = fp_div_spec(fp_sub_spec(axis.min as int, orig as int), dir as int);
    let t1 = fp_div_spec(fp_sub_spec(axis.max as int, orig as int), dir as int);
    if dir < 0 {
        shrink_spec(t, t1 as i64, t0 as i64)
    } else {
        shrink_spec(t, t0 as i64, t1 as i64)
    }
}

/// Whether the slab interval is already empty, the early exit of the test.
pub open spec fn slab_empty(t: Interval) -> bool {
    t.max <= t.min
}

/// The query interval after narrowing by the x, y and z slabs in turn.
pub open spec fn aabb_narrow_spec(b: Aabb, r: Ray, t: Interval) -> Interval {
    let tx = slab_spec(b.x, r.origin.x, r.direction.x, t);
    let ty = slab_spec(b.y, r.origin.y, r.direction.y, tx);
    slab_spec(b.z, r.origin.z, r.direction.z, ty)
}

/// The slab test: the ray meets the box within the query interval unless the
/// narrowed interval becomes empty along some axis.
pub open spec fn aabb_hit_spec(b: Aabb, r: Ray, t: Interval) -> bool {
    let tx = slab_spec(b.x, r.origin.x, r.direction.x, t);
    if slab_empty(tx) {
        false
    } else {
        let ty = slab_spec(b.y, r.origin.y, r.direction.y, tx);
        if slab_empty(ty) {
            false
        } else {
            !slab_empty(slab_spec(b.z, r.origin.z, r.direction.z, ty))
        }
    }
}

/// The minimum thickness `pad` guarantees per axis, a little over the
/// thinnest representable slab, so planar primitives keep a positive volume.
pub const PAD_DELTA: i64 = 8;

/// The box thickened along each axis that is thinner than `PAD_DELTA`.
pub open spec fn aabb_pad_spec(b: Aabb) -> Aabb {
    Aabb {
        x: if fp_sub_spec(b.x.max as int, b.x.min as int) >= PAD_DELTA as int {
            b.x
        } else {
            expand_spec(b.x, PAD_DELTA)
        },
        y: if fp_sub_spec(b.y.max as int, b.y.min as int) >= PAD_DELTA as int {
            b.y
        } else {
            expand_spec(b.y, PAD_DELTA)
        },
        z: if fp_sub_spec(b.z.max as int, b.z.min as int) >= PAD_DELTA as int {
            b.z
        } else {
            expand_spec(b.z, PAD_DELTA)
        },
    }
}

/// The box shifted by an offset vector (both bounds of each axis move).
pub open spec fn aabb_translate_spec(b: Aabb, offset: Vec3) -> Aabb {
    Aabb {
        x: Interval {
            min: crate::fixed::fp_add_spec(b.x.min as int, offset.x as int) as i64,
            max: crate::fixed::fp_add_spec(b.x.max as int, offset.x as int) as i64,
        },
        y: Interval {
            min: crate::fixed::fp_add_spec(b.y.min as int, offset.y as int) as i64,
            max: crate::fixed::fp_add_spec(b.y.max as int, offset.y as int) as i64,
        },
        z: Interval {
            min: crate::fixed::fp_add_spec(b.z.min as int, offset.z as int) as i64,
            max: crate::fixed::fp_add_spec(b.z.max as int, offset.z as int) as i64,
        },
    }
}

impl Aabb {
    /// The empty box.
    pub fn new() -> (r: Aabb)
        ensures
            r == (Aabb {
                x: crate::interval::interval_empty(),
                y: crate::interval::interval_empty(),
                z: crate::interval::interval_empty(),
            }),
    {
        Aabb { x: Interval::empty(), y: Interval::empty(), z: Interval::empty() }
    }

    /// The box spanned by two opposite corners, in either order.
    pub fn from_points(a: Vec3, b: Vec3) -> (r: Aabb)
        ensures
            r == aabb_from_points_spec(a, b),
    {
        let x = Interval::new(
            if a.x <= b.x {
                a.x
            } else {
                b.x
            },
            if a.x >= b.x {
                a.x
            } else {
                b.x
            },
        );
        let y = Interval::new(
            if a.y <= b.y {
                a.y
            } else {
                b.y
            },
            if a.y >= b.y {
                a.y
            } else {
                b.y
            },
        );
        let z = Interval::new(
            if a.z <= b.z {
                a.z
            } else {
                b.z
            },
            if a.z >= b.z {
                a.z
            } else {
                b.z
            },
        );
        Aabb { x, y, z }
    }

    /// The smallest box containing both boxes.
    pub fn from_boxes(box0: Aabb, box1: Aabb) -> (r: Aabb)
        ensures
            r == aabb_union_spec(box0, box1),
    {
        Aabb {
            x: Interval::from_intervals(box0.x, box1.x),
            y: Interval::from_intervals(box0.y, box1.y),
            z: Interval::from_intervals(box0.z, box1.z),
        }
    }

    /// The axis interval by index: 1 is y, 2 is z, anything else x.
    pub fn axis(&self, n: usize) -> (r: Interval)
        ensures
            r == aabb_axis_spec(*self, n as int),
    {
        if n == 1 {
            self.y
        } else if n == 2 {
            self.z
        } else {
            self.x
        }
    }

    /// The slab test: narrow the query interval by each axis in turn and
    /// report whether any parameter range survives.
    pub fn hit(&self, r: &Ray, ray_t: Interval) -> (res: bool)
        ensures
            res == aabb_hit_spec(*self, *r, ray_t),
    {
        let mut t = ray_t;
        let t0x = fp_div(fp_sub(self.x.min, r.origin.x), r.direction.x);
        let t1x = fp_div(fp_sub(self.x.max, r.origin.x), r.direction.x);
        if r.direction.x < 0 {
            t.shrink(t1x, t0x);
        } else {
            t.shrink(t0x, t1x);
        }
        if t.max <= t.min {
            return false;
        }
        let t0y = fp_div(fp_sub(self.y.min, r.origin.y), r.direction.y);
        let t1y = fp_div(fp_sub(self.y.max, r.origin.y), r.direction.y);
        if r.direction.y < 0 {
            t.shrink(t1y, t0y);
        } else {
            t.shrink(t0y, t1y);
        }
        if t.max <= t.min {
            return false;
        }
        let t0z = fp_div(fp_sub(self.z.min, r.origin.z), r.direction.z);
        let t1z = fp_div(fp_sub(self.z.max, r.origin.z), r.direction.z);
        if r.direction.z < 0 {
            t.shrink(t1z, t0z);
        } else {
            t.shrink(t0z, t1z);
        }
        !(t.max <= t.min)
    }

    /// The box with every axis at least `PAD_DELTA` thick.
    pub fn pad(&self) -> (r: Aabb)
        ensures
            r == aabb_pad_spec(*self),
    {
        let new_x = if fp_sub(self.x.max, self.x.min) >= PAD_DELTA {
            self.x
        } else {
            self.x.expand(PAD_DELTA)
        };
        let new_y = if fp_sub(self.y.max, self.y.min) >= PAD_DELTA {
            self.y
        } else {
            self.y.expand(PAD_DELTA)
        };
        let new_z = if fp_sub(self.z.max, self.z.min) >= PAD_DELTA {
            self.z
        } else {
            self.z.expand(PAD_DELTA)
        };
        Aabb { x: new_x, y: new_y, z: new_z }
    }

    /// The box shifted by an offset vector.
    pub fn translate(&self, offset: Vec3) -> (r: Aabb)
        ensures
            r == aabb_translate_spec(*self, offset),
    {
        Aabb {
            x: Interval {
                min: crate::fixed::fp_add(self.x.min, offset.x),
                max: crate::fixed::fp_add(self.x.max, offset.x),
            },
            y: Interval {
                min: crate::fixed::fp_add(self.y.min, offset.y),
                max: crate::fixed::fp_add(self.y.max, offset.y),
            },
            z: Interval {
                min: crate::fixed::fp_add(self.z.min, offset.z),
                max: crate::fixed::fp_add(self.z.max, offset.z),
            },
        }
    }
}

impl Default for Aabb {
    /// The default box is empty on every axis.
    fn default() -> (r: Aabb)
        ensures
            r == (Aabb {
                x: crate::interval::interval_empty(),
                y: crate::interval::interval_empty(),
                z: crate::interval::interval_empty(),
            }),
    {
        Aabb::new()
    }
}

} // verus!
