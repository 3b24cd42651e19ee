//! Planar parallelograms: a corner and two edge vectors.

use vstd::prelude::*;

use crate::aabb::Aabb;
use crate::aabb::aabb_from_points_spec;
use crate::aabb::aabb_pad_spec;
use crate::fixed::FP_ONE;
use crate::fixed::fp_div;
use crate::fixed::fp_div_spec;
use crate::fixed::fp_neg;
use crate::fixed::fp_sub;
use crate::fixed::fp_sub_spec;
use crate::fixed::iabs;
use crate::hittable::HitRecord;
use crate::hittable::Hittable;
use crate::hittable::face_normal_spec;
use crate::hittable::hittable_list::HittableList;
use crate::interval::Interval;
use crate::interval::surrounds_spec;
use crate::ray::Ray;
use crate::ray::ray_at_spec;
use crate::vec3::Vec3;
use crate::vec3::cross_spec;
use crate::vec3::dot_spec;
use crate::vec3::unit_spec;
use crate::vec3::vec_add_spec;
use crate::vec3::vec_sub_spec;

verus! {

/// A parallelogram with corner `q` and edges `u` and `v`, its unit normal,
/// the plane constant `d = normal . q`, and the precomputed basis vector
/// `w = (u x v) / |u x v|^2` used to solve for planar coordinates.
pub struct Quad {
    pub q: Vec3,
    pub u: Vec3,
    pub v: Vec3,
    pub mat: usize,
    pub bbox: Aabb,
    pub normal: Vec3,
    pub d: i64,
    pub w: Vec3,
}

/// The record a quad hit fills in at parameter `t` with planar coordinates
/// `(alpha, beta)` as the surface coordinates.
pub open spec fn quad_record_spec(qd: Quad, r: Ray, t: i64, alpha: i64, beta: i64) -> HitRecord {
    face_normal_spec(
        HitRecord {
            p: ray_at_spec(r, t),
            normal: Vec3 { x: 0, y: 0, z: 0 },
            mat: qd.mat,
            t,
            front_face: false,
            u: alpha,
            v: beta,
        },
        r,
        qd.normal,
    )
}

/// The planar coordinates lie inside the unit square, so the hit point is
/// interior to the parallelogram.
pub open spec fn quad_interior_spec(alpha: i64, beta: i64) -> bool {
    !(alpha < 0 || FP_ONE < alpha || beta < 0 || FP_ONE < beta)
}

/// Ray/quad intersection: reject rays parallel to the plane (a denominator
/// of magnitude below the fixed-point resolution), solve for the plane
/// parameter, demand it strictly inside the query interval, then accept only
/// hit points whose planar coordinates lie inside the unit square.
pub open spec fn quad_hit_spec(qd: Quad, r: Ray, ray_t: Interval) -> Option<HitRecord> {
    let denom = dot_spec(qd.normal, r.direction);
    if iabs(denom) < 1 {
        Option::None
    } else {
        let t = fp_div_spec(fp_sub_spec(qd.d as int, dot_spec(qd.normal, r.origin)), denom)
            as i64;
        if !surrounds_spec(ray_t, t) {
            Option::None
        } else {
            let intersection = ray_at_spec(r, t);
            let planar_hitpt_vector = vec_sub_spec(intersection, qd.q);
            let alpha = dot_spec(qd.w, cross_spec(planar_hitpt_vector, qd.v)) as i64;
            let beta = dot_spec(qd.w, cross_spec(qd.u, planar_hitpt_vector)) as i64;
            if !quad_interior_spec(alpha, beta) {
                Option::None
            } else {
                Option::Some(quad_record_spec(qd, r, t, alpha, beta))
            }
        }
    }
}

impl Quad {
    /// A parallelogram from a corner and two edges, with its plane data and
    /// padded box precomputed.
    pub fn new(q: Vec3, u: Vec3, v: Vec3, mat: usize) -> (r: Quad)
        ensures
            r.q == q && r.u == u && r.v == v && r.mat == mat,
            r.normal == unit_spec(cross_spec(u, v)),
            r.d as int == dot_spec(unit_spec(cross_spec(u, v)), q),
            r.w == crate::vec3::vec_div_spec(
                cross_spec(u, v),
                crate::vec3::norm2_spec(cross_spec(u, v)) as i64,
            ),
            r.bbox == aabb_pad_spec(aabb_from_points_spec(q, vec_add_spec(vec_add_spec(q, u), v))),
    {
        let n = u.cross(v);
        let normal = crate::vec3::unit_vector(n);
        let d = normal.dot(q);
        let n2 = n.norm2();
        let w = n.divide(n2);
        let mut q1 = Quad { q, u, v, mat, bbox: Aabb::new(), normal, d, w };
        q1.set_bounding_box();
        q1
    }

    /// Cache the padded box spanning the two opposite corners.
    pub fn set_bounding_box(&mut self)
        ensures
            *final(self) == (Quad {
                bbox: aabb_pad_spec(
                    aabb_from_points_spec(
                        old(self).q,
                        vec_add_spec(vec_add_spec(old(self).q, old(self).u), old(self).v),
                    ),
                ),
                ..*old(self)
            }),
    {
        self.bbox = Aabb::from_points(self.q, self.q.plus(self.u).plus(self.v)).pad();
    }

    /// Given the hit point in plane coordinates, reject points outside the
    /// unit square; inside it, store the coordinates as the record's UV.
    pub fn is_interior(a: i64, b: i64, rec: &mut HitRecord) -> (res: bool)
        ensures
            res == quad_interior_spec(a, b),
            res ==> *final(rec) == (HitRecord { u: a, v: b, ..*old(rec) }),
            !res ==> *final(rec) == *old(rec),
    {
        if a < 0 || FP_ONE < a || b < 0 || FP_ONE < b {
            return false;
        }
        rec.u = a;
        rec.v = b;
        true
    }

    /// The intersection with the plane, strictly inside the query interval
    /// and interior to the parallelogram, if any.
    pub fn hit(&self, r: &Ray, ray_t: Interval) -> (res: Option<HitRecord>)
        ensures
            res == quad_hit_spec(*self, *r, ray_t),
            res matches Option::Some(rec) ==> surrounds_spec(ray_t, rec.t) && rec.mat == self.mat,
    {
        let denom = self.normal.dot(r.direction());
        let adenom = if denom < 0 {
            fp_neg(denom)
        } else {
            denom
        };
        if adenom < 1 {
            return Option::None;
        }

        let t = fp_div(fp_sub(self.d, self.normal.dot(r.origin())), denom);
        if !ray_t.surrounds(t) {
            return Option::None;
        }

        let intersection = r.at(t);
        let planar_hitpt_vector = intersection.minus(self.q);
        let alpha = self.w.dot(planar_hitpt_vector.cross(self.v));
        let beta = self.w.dot(self.u.cross(planar_hitpt_vector));

        let mut rec = HitRecord::new();
        if !Quad::is_interior(alpha, beta, &mut rec) {
            return Option::None;
        }

        rec.t = t;
        rec.p = intersection;
        rec.mat = self.mat;
        rec.set_face_normal(r, self.normal);
        proof {
            assert(rec == quad_record_spec(*self, *r, t, alpha, beta));
        }
        Option::Some(rec)
    }
}

/// The object is a parallelogram with the given corner, edges and material.
pub open spec fn is_quad_side(h: Hittable, q: Vec3, u: Vec3, v: Vec3, mat: usize) -> bool {
    h matches Hittable::Quad(qd) && qd.q == q && qd.u == u && qd.v == v && qd.mat == mat
}

/// The minimum corner of the box spanned by two opposite vertices.
pub open spec fn box_min_spec(a: Vec3, b: Vec3) -> Vec3 {
    Vec3 {
        x: if a.x <= b.x {
            a.x
        } else {
            b.x
        },
        y: if a.y <= b.y {
            a.y
        } else {
            b.y
        },
        z: if a.z <= b.z {
            a.z
        } else {
            b.z
        },
    }
}

/// The maximum corner of the box spanned by two opposite vertices.
pub open spec fn box_max_spec(a: Vec3, b: Vec3) -> Vec3 {
    Vec3 {
        x: if a.x >= b.x {
            a.x
        } else {
            b.x
        },
        y: if a.y >= b.y {
            a.y
        } else {
            b.y
        },
        z: if a.z >= b.z {
            a.z
        } else {
            b.z
        },
    }
}

/// The closed box (six quads) spanning two opposite vertices, all sharing
/// one material: front, right, back, left, top and bottom face, each with
/// its corner and edge vectors pinned.
pub fn _box(a: Vec3, b: Vec3, mat: usize) -> (r: HittableList)
    ensures
        r.objects@.len() == 6,
        ({
            let mn = box_min_spec(a, b);
            let mx = box_max_spec(a, b);
            let dx = Vec3 { x: fp_sub_spec(mx.x as int, mn.x as int) as i64, y: 0, z: 0 };
            let dy = Vec3 { x: 0, y: fp_sub_spec(mx.y as int, mn.y as int) as i64, z: 0 };
            let dz = Vec3 { x: 0, y: 0, z: fp_sub_spec(mx.z as int, mn.z as int) as i64 };
            &&& is_quad_side(r.objects@[0], Vec3 { x: mn.x, y: mn.y, z: mx.z }, dx, dy, mat)
            &&& is_quad_side(
                r.objects@[1],
                Vec3 { x: mx.x, y: mn.y, z: mx.z },
                crate::vec3::vec_neg_spec(dz),
                dy,
                mat,
            )
            &&& is_quad_side(
                r.objects@[2],
                Vec3 { x: mx.x, y: mn.y, z: mn.z },
                crate::vec3::vec_neg_spec(dx),
                dy,
                mat,
            )
            &&& is_quad_side(r.objects@[3], Vec3 { x: mn.x, y: mn.y, z: mn.z }, dz, dy, mat)
            &&& is_quad_side(
                r.objects@[4],
                Vec3 { x: mn.x, y: mx.y, z: mx.z },
                dx,
                crate::vec3::vec_neg_spec(dz),
                mat,
            )
            &&& is_quad_side(r.objects@[5], Vec3 { x: mn.x, y: mn.y, z: mn.z }, dx, dz, mat)
        }),
{
    let mut sides = HittableList::empty();

    let min = Vec3::new(
        if a.x <= b.x {
            a.x
        } else {
            b.x
        },
        if a.y <= b.y {
            a.y
        } else {
            b.y
        },
        if a.z <= b.z {
            a.z
        } else {
            b.z
        },
    );
    let max = Vec3::new(
        if a.x >= b.x {
            a.x
        } else {
            b.x
        },
        if a.y >= b.y {
            a.y
        } else {
            b.y
        },
        if a.z >= b.z {
            a.z
        } else {
            b.z
        },
    );

    let dx = Vec3::new(fp_sub(max.x, min.x), 0, 0);
    let dy = Vec3::new(0, fp_sub(max.y, min.y), 0);
    let dz = Vec3::new(0, 0, fp_sub(max.z, min.z));

    sides.add(Hittable::Quad(Quad::new(Vec3::new(min.x, min.y, max.z), dx, dy, mat)));
    sides.add(Hittable::Quad(Quad::new(Vec3::new(max.x, min.y, max.z), dz.negate(), dy, mat)));
    sides.add(Hittable::Quad(Quad::new(Vec3::new(max.x, min.y, min.z), dx.negate(), dy, mat)));
    sides.add(Hittable::Quad(Quad::new(Vec3::new(min.x, min.y, min.z), dz, dy, mat)));
    sides.add(Hittable::Quad(Quad::new(Vec3::new(min.x, max.y, max.z), dx, dz.negate(), mat)));
    sides.add(Hittable::Quad(Quad::new(Vec3::new(min.x, min.y, min.z), dx, dz, mat)));

    sides
}

} // verus!
