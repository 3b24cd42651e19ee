//! The rotation decorator about the y axis, with a precomputed sine and
//! cosine of the rotation angle.

use vstd::prelude::*;

use crate::aabb::Aabb;
use crate::fixed::fp_add;
use crate::fixed::fp_add_spec;
use crate::fixed::fp_mul;
use crate::fixed::fp_mul_spec;
use crate::fixed::fp_neg;
use crate::fixed::fp_neg_spec;
use crate::fixed::fp_sub;
use crate::fixed::fp_sub_spec;
use crate::hittable::HitRecord;
use crate::hittable::Hittable;
use crate::hittable::bounding_box_spec;
use crate::hittable::hit_spec;
use crate::hittable::wf;
use crate::interval::Interval;
use crate::ray::Ray;
use crate::rng::Rng;
use crate::vec3::Vec3;

verus! {

/// A child object rotated about the y axis; the sine and cosine of the
/// angle are supplied precomputed, and the cached box is the axis-aligned
/// hull of the child's rotated box corners.
pub struct RotateY {
    pub object: Box<Hittable>,
    pub sin_theta: i64,
    pub cos_theta: i64,
    pub bbox: Aabb,
}

/// The world-space x of a rotated point: `cos * x + sin * z`.
pub open spec fn rot_x_spec(sin_theta: i64, cos_theta: i64, x: i64, z: i64) -> int {
    fp_add_spec(fp_mul_spec(cos_theta as int, x as int), fp_mul_spec(sin_theta as int, z as int))
}

/// The world-space z of a rotated point: `-sin * x + cos * z`.
pub open spec fn rot_z_spec(sin_theta: i64, cos_theta: i64, x: i64, z: i64) -> int {
    fp_add_spec(
        fp_neg_spec(fp_mul_spec(sin_theta as int, x as int)),
        fp_mul_spec(cos_theta as int, z as int),
    )
}

/// The object-space x of a world point: `cos * x - sin * z`.
pub open spec fn unrot_x_spec(sin_theta: i64, cos_theta: i64, x: i64, z: i64) -> int {
    fp_sub_spec(fp_mul_spec(cos_theta as int, x as int), fp_mul_spec(sin_theta as int, z as int))
}

/// The object-space z of a world point: `sin * x + cos * z`.
pub open spec fn unrot_z_spec(sin_theta: i64, cos_theta: i64, x: i64, z: i64) -> int {
    fp_add_spec(fp_mul_spec(sin_theta as int, x as int), fp_mul_spec(cos_theta as int, z as int))
}

/// The least of four values.
pub open spec fn min4(a: int, b: int, c: int, d: int) -> int {
    let m1 = if a <= b {
        a
    } else {
        b
    };
    let m2 = if c <= d {
        c
    } else {
        d
    };
    if m1 <= m2 {
        m1
    } else {
        m2
    }
}

/// The greatest of four values.
pub open spec fn max4(a: int, b: int, c: int, d: int) -> int {
    let m1 = if a >= b {
        a
    } else {
        b
    };
    let m2 = if c >= d {
        c
    } else {
        d
    };
    if m1 >= m2 {
        m1
    } else {
        m2
    }
}

/// The axis-aligned hull of the child's box under the rotation: the extents
/// of the four rotated `(x, z)` corner combinations; the y axis is
/// unchanged. This box is conservative, not tight.
pub open spec fn rotated_bbox_spec(b: Aabb, sin_theta: i64, cos_theta: i64) -> Aabb {
    let x00 = rot_x_spec(sin_theta, cos_theta, b.x.min, b.z.min);
    let x01 = rot_x_spec(sin_theta, cos_theta, b.x.min, b.z.max);
    let x10 = rot_x_spec(sin_theta, cos_theta, b.x.max, b.z.min);
    let x11 = rot_x_spec(sin_theta, cos_theta, b.x.max, b.z.max);
    let z00 = rot_z_spec(sin_theta, cos_theta, b.x.min, b.z.min);
    let z01 = rot_z_spec(sin_theta, cos_theta, b.x.min, b.z.max);
    let z10 = rot_z_spec(sin_theta, cos_theta, b.x.max, b.z.min);
    let z11 = rot_z_spec(sin_theta, cos_theta, b.x.max, b.z.max);
    Aabb {
        x: crate::interval::Interval {
            min: min4(x00, x01, x10, x11) as i64,
            max: max4(x00, x01, x10, x11) as i64,
        },
        y: b.y,
        z: crate::interval::Interval {
            min: min4(z00, z01, z10, z11) as i64,
            max: max4(z00, z01, z10, z11) as i64,
        },
    }
}

/// The ray carried into object space: origin and direction turned by the
/// inverse rotation.
pub open spec fn rotated_ray_spec(ry: RotateY, r: Ray) -> Ray {
    let s = ry.sin_theta;
    let c = ry.cos_theta;
    Ray {
        origin: Vec3 {
            x: unrot_x_spec(s, c, r.origin.x, r.origin.z) as i64,
            y: r.origin.y,
            z: unrot_z_spec(s, c, r.origin.x, r.origin.z) as i64,
        },
        direction: Vec3 {
            x: unrot_x_spec(s, c, r.direction.x, r.direction.z) as i64,
            y: r.direction.y,
            z: unrot_z_spec(s, c, r.direction.x, r.direction.z) as i64,
        },
        tm: r.tm,
    }
}

/// The record carried back to world space: hit point and normal turned by
/// the rotation.
pub open spec fn rotated_record_spec(ry: RotateY, rec: HitRecord) -> HitRecord {
    let s = ry.sin_theta;
    let c = ry.cos_theta;
    HitRecord {
        p: Vec3 {
            x: rot_x_spec(s, c, rec.p.x, rec.p.z) as i64,
            y: rec.p.y,
            z: rot_z_spec(s, c, rec.p.x, rec.p.z) as i64,
        },
        normal: Vec3 {
            x: rot_x_spec(s, c, rec.normal.x, rec.normal.z) as i64,
            y: rec.normal.y,
            z: rot_z_spec(s, c, rec.normal.x, rec.normal.z) as i64,
        },
        ..rec
    }
}

/// Intersection with a rotated object: carry the ray into object space,
/// probe the child, and carry the hit point and normal back to world space.
pub open spec fn rotate_y_hit_spec(ry: RotateY, r: Ray, ray_t: Interval) -> Option<HitRecord>
    decreases ry, 0int,
{
    match hit_spec(*ry.object, rotated_ray_spec(ry, r), ray_t) {
        Option::None => Option::None,
        Option::Some(rec) => Option::Some(rotated_record_spec(ry, rec)),
    }
}

/// The full model of the rotated intersection, over the generator state.
pub open spec fn rotate_y_hit_rng_spec(ry: RotateY, r: Ray, ray_t: Interval, s: u64) -> (
    Option<HitRecord>,
    u64,
)
    decreases ry, 0int,
{
    let probe = crate::hittable::hit_rng_spec(*ry.object, rotated_ray_spec(ry, r), ray_t, s);
    (
        match probe.0 {
            Option::None => Option::None,
            Option::Some(rec) => Option::Some(rotated_record_spec(ry, rec)),
        },
        probe.1,
    )
}

fn rot_x(sin_theta: i64, cos_theta: i64, x: i64, z: i64) -> (r: i64)
    ensures
        r as int == rot_x_spec(sin_theta, cos_theta, x, z),
{
    fp_add(fp_mul(cos_theta, x), fp_mul(sin_theta, z))
}

fn rot_z(sin_theta: i64, cos_theta: i64, x: i64, z: i64) -> (r: i64)
    ensures
        r as int == rot_z_spec(sin_theta, cos_theta, x, z),
{
    fp_add(fp_neg(fp_mul(sin_theta, x)), fp_mul(cos_theta, z))
}

fn min4_exec(a: i64, b: i64, c: i64, d: i64) -> (r: i64)
    ensures
        r as int == min4(a as int, b as int, c as int, d as int),
{
    let m1 = if a <= b {
        a
    } else {
        b
    };
    let m2 = if c <= d {
        c
    } else {
        d
    };
    if m1 <= m2 {
        m1
    } else {
        m2
    }
}

fn max4_exec(a: i64, b: i64, c: i64, d: i64) -> (r: i64)
    ensures
        r as int == max4(a as int, b as int, c as int, d as int),
{
    let m1 = if a >= b {
        a
    } else {
        b
    };
    let m2 = if c >= d {
        c
    } else {
        d
    };
    if m1 >= m2 {
        m1
    } else {
        m2
    }
}

impl RotateY {
    /// Wrap an object in a rotation whose sine and cosine are given; the box
    /// is computed once from the child's box corners.
    pub fn new(p: Hittable, sin_theta: i64, cos_theta: i64) -> (r: RotateY)
        ensures
            *r.object == p,
            r.sin_theta == sin_theta,
            r.cos_theta == cos_theta,
            r.bbox == rotated_bbox_spec(bounding_box_spec(p), sin_theta, cos_theta),
    {
        let bbox = p.bounding_box();
        let x00 = rot_x(sin_theta, cos_theta, bbox.x.min, bbox.z.min);
        let x01 = rot_x(sin_theta, cos_theta, bbox.x.min, bbox.z.max);
        let x10 = rot_x(sin_theta, cos_theta, bbox.x.max, bbox.z.min);
        let x11 = rot_x(sin_theta, cos_theta, bbox.x.max, bbox.z.max);
        let z00 = rot_z(sin_theta, cos_theta, bbox.x.min, bbox.z.min);
        let z01 = rot_z(sin_theta, cos_theta, bbox.x.min, bbox.z.max);
        let z10 = rot_z(sin_theta, cos_theta, bbox.x.max, bbox.z.min);
        let z11 = rot_z(sin_theta, cos_theta, bbox.x.max, bbox.z.max);
        let rotated = Aabb {
            x: crate::interval::Interval {
                min: min4_exec(x00, x01, x10, x11),
                max: max4_exec(x00, x01, x10, x11),
            },
            y: bbox.y,
            z: crate::interval::Interval {
                min: min4_exec(z00, z01, z10, z11),
                max: max4_exec(z00, z01, z10, z11),
            },
        };
        RotateY { object: Box::new(p), sin_theta, cos_theta, bbox: rotated }
    }

    /// Probe the child in object space and rotate the result back.
    pub fn hit(&self, r: &Ray, ray_t: Interval, rng: &mut Rng) -> (res: Option<HitRecord>)
        ensures
            res == rotate_y_hit_rng_spec(*self, *r, ray_t, old(rng)@).0,
            final(rng)@ == rotate_y_hit_rng_spec(*self, *r, ray_t, old(rng)@).1,
            res matches Option::Some(rec) ==> ray_t.min <= rec.t <= ray_t.max,
            forall|n: int|
                #[trigger] wf(Hittable::RotateY(*self), n) ==> (res matches Option::Some(rec)
                    ==> rec.mat < n),
        decreases self, 0int,
    {
        let s = self.sin_theta;
        let c = self.cos_theta;
        let origin = Vec3 {
            x: fp_sub(fp_mul(c, r.origin.x), fp_mul(s, r.origin.z)),
            y: r.origin.y,
            z: fp_add(fp_mul(s, r.origin.x), fp_mul(c, r.origin.z)),
        };
        let direction = Vec3 {
            x: fp_sub(fp_mul(c, r.direction.x), fp_mul(s, r.direction.z)),
            y: r.direction.y,
            z: fp_add(fp_mul(s, r.direction.x), fp_mul(c, r.direction.z)),
        };
        let rotated_r = Ray::new_timed(origin, direction, r.time());
        proof {
            assert(forall|n: int|
                #[trigger] wf(Hittable::RotateY(*self), n) ==> wf(*self.object, n));
        }
        match self.object.hit(&rotated_r, ray_t, rng) {
            Option::None => Option::None,
            Option::Some(rec) => {
                let p = Vec3 {
                    x: fp_add(fp_mul(c, rec.p.x), fp_mul(s, rec.p.z)),
                    y: rec.p.y,
                    z: fp_add(fp_neg(fp_mul(s, rec.p.x)), fp_mul(c, rec.p.z)),
                };
                let normal = Vec3 {
                    x: fp_add(fp_mul(c, rec.normal.x), fp_mul(s, rec.normal.z)),
                    y: rec.normal.y,
                    z: fp_add(fp_neg(fp_mul(s, rec.normal.x)), fp_mul(c, rec.normal.z)),
                };
                let mut rec2 = rec;
                rec2.p = p;
                rec2.normal = normal;
                Option::Some(rec2)
            },
        }
    }
}

} // verus!
