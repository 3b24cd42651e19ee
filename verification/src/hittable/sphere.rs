//! Spheres, static or linearly moving, and their surface parameterization.

use vstd::prelude::*;

use crate::aabb::Aabb;
use crate::aabb::aabb_from_points_spec;
use crate::aabb::aabb_union_spec;
use crate::fixed::FP_ONE;
use crate::fixed::fp_add;
use crate::fixed::fp_add_spec;
use crate::fixed::fp_div;
use crate::fixed::fp_div_spec;
use crate::fixed::fp_mul;
use crate::fixed::fp_mul_spec;
use crate::fixed::fp_neg;
use crate::fixed::fp_neg_spec;
use crate::fixed::fp_sqrt;
use crate::fixed::fp_sqrt_spec;
use crate::fixed::fp_sub;
use crate::fixed::fp_sub_spec;
use crate::hittable::HitRecord;
use crate::hittable::face_normal_spec;
use crate::interval::Interval;
use crate::interval::surrounds_spec;
use crate::ray::Ray;
use crate::ray::ray_at_spec;
use crate::trig::FP_PI;
use crate::trig::FP_TWO_PI;
use crate::trig::fp_acos_spec;
use crate::trig::fp_atan2_spec;
use crate::vec3::Vec3;
use crate::vec3::dot_spec;
use crate::vec3::vec_add_spec;
use crate::vec3::vec_scale_spec;
use crate::vec3::vec_sub_spec;

verus! {

/// A sphere: a starting center, the displacement it moves along over the
/// shutter interval, a radius, a material handle, and its cached box.
pub struct Sphere {
    pub center1: Vec3,
    pub center_vec: Vec3,
    pub radius: i64,
    pub mat: usize,
    pub is_moving: bool,
    pub bbox: Aabb,
}

/// The center at a moment: linear interpolation from the starting center
/// along the displacement, so time zero gives the start and time one the end.
pub open spec fn sphere_center_spec(s: Sphere, time: i64) -> Vec3 {
    if s.is_moving {
        vec_add_spec(s.center1, vec_scale_spec(s.center_vec, time))
    } else {
        s.center1
    }
}

/// Texture coordinates of a point on the unit sphere:
/// `u` from the azimuth `atan2(-z, x) + pi` over a full turn, and `v` from
/// the polar angle `acos(-y)` over a half turn.
pub open spec fn sphere_uv_spec(p: Vec3) -> (int, int) {
    let theta = fp_acos_spec(fp_neg_spec(p.y as int) as i64);
    let phi = fp_add_spec(fp_atan2_spec(fp_neg_spec(p.z as int) as i64, p.x), FP_PI as int);
    (fp_div_spec(phi, FP_TWO_PI as int), fp_div_spec(theta, FP_PI as int))
}

/// The record a sphere hit fills in at root `t`.
pub open spec fn sphere_record_spec(s: Sphere, r: Ray, root: i64, center: Vec3) -> HitRecord {
    let p = ray_at_spec(r, root);
    let outward_normal = crate::vec3::vec_div_spec(vec_sub_spec(p, center), s.radius);
    let uv = sphere_uv_spec(outward_normal);
    face_normal_spec(
        HitRecord {
            p,
            normal: Vec3 { x: 0, y: 0, z: 0 },
            mat: s.mat,
            t: root,
            front_face: false,
            u: uv.0 as i64,
            v: uv.1 as i64,
        },
        r,
        outward_normal,
    )
}

/// Ray/sphere intersection: solve the quadratic
/// `|d|^2 t^2 + 2 (oc . d) t + |oc|^2 - radius^2 = 0` and take the smaller
/// root if it lies strictly inside the query interval, else the larger, else
/// nothing; a negative discriminant is a miss.
pub open spec fn sphere_hit_spec(s: Sphere, r: Ray, ray_t: Interval) -> Option<HitRecord> {
    let center = sphere_center_spec(s, r.tm);
    let oc = vec_sub_spec(r.origin, center);
    let a = dot_spec(r.direction, r.direction);
    let half_b = dot_spec(oc, r.direction);
    let c = fp_sub_spec(dot_spec(oc, oc), fp_mul_spec(s.radius as int, s.radius as int));
    let discriminant = fp_sub_spec(fp_mul_spec(half_b, half_b), fp_mul_spec(a, c));
    if discriminant < 0 {
        Option::None
    } else {
        let sqrtd = fp_sqrt_spec(discriminant);
        let root1 = fp_div_spec(fp_sub_spec(fp_neg_spec(half_b), sqrtd), a) as i64;
        let root2 = fp_div_spec(fp_add_spec(fp_neg_spec(half_b), sqrtd), a) as i64;
        if surrounds_spec(ray_t, root1) {
            Option::Some(sphere_record_spec(s, r, root1, center))
        } else if surrounds_spec(ray_t, root2) {
            Option::Some(sphere_record_spec(s, r, root2, center))
        } else {
            Option::None
        }
    }
}

/// A ray whose origin lies inside the sphere (`|oc|^2 < radius^2`, so the
/// quadratic's constant term is negative) always has two real roots: the
/// discriminant is at least the square of the half-coefficient, and the
/// smaller root never exceeds the larger.
pub proof fn lemma_sphere_interior_roots(a: int, half_b: int, c: int)
    requires
        a > 0,
        c < 0,
    ensures
        fp_sub_spec(fp_mul_spec(half_b, half_b), fp_mul_spec(a, c)) >= fp_mul_spec(
            half_b,
            half_b,
        ),
        fp_sub_spec(fp_mul_spec(half_b, half_b), fp_mul_spec(a, c)) >= 0,
        fp_div_spec(
            fp_sub_spec(
                fp_neg_spec(half_b),
                fp_sqrt_spec(fp_sub_spec(fp_mul_spec(half_b, half_b), fp_mul_spec(a, c))),
            ),
            a,
        ) <= fp_div_spec(
            fp_add_spec(
                fp_neg_spec(half_b),
                fp_sqrt_spec(fp_sub_spec(fp_mul_spec(half_b, half_b), fp_mul_spec(a, c))),
            ),
            a,
        ),
{
    crate::fixed::lemma_fp_mul_nonneg_nonpos(a, c);
    crate::vec3::lemma_fp_square_nonneg(half_b);
    let disc = fp_sub_spec(fp_mul_spec(half_b, half_b), fp_mul_spec(a, c));
    crate::fixed::lemma_isqrt_exists(disc * (crate::fixed::FP_ONE as int));
    let s = fp_sqrt_spec(disc);
    assert(s >= 0) by {
        let w = choose|r: int| #[trigger] crate::fixed::is_isqrt(disc * (crate::fixed::FP_ONE as int), r);
        crate::fixed::lemma_isqrt_unique(disc * (crate::fixed::FP_ONE as int), w);
    }
    crate::fixed::lemma_fp_div_ordered(
        fp_sub_spec(fp_neg_spec(half_b), s),
        fp_add_spec(fp_neg_spec(half_b), s),
        a,
    );
}

/// A ray whose origin is the sphere's center (`oc = 0`, so the half
/// coefficient vanishes and the constant term is the negated squared
/// radius) has two real roots of opposite sign: the larger root is
/// non-negative and the smaller is exactly its negation.
pub proof fn lemma_sphere_center_roots(a: int, c: int)
    requires
        a > 0,
        c < 0,
    ensures
        ({
            let disc = fp_sub_spec(fp_mul_spec(0, 0), fp_mul_spec(a, c));
            let s = fp_sqrt_spec(disc);
            let root_lo = fp_div_spec(fp_sub_spec(fp_neg_spec(0), s), a);
            let root_hi = fp_div_spec(fp_add_spec(fp_neg_spec(0), s), a);
            root_hi >= 0 && root_lo == -root_hi
        }),
{
    let one = crate::fixed::FP_ONE as int;
    assert(fp_mul_spec(0, 0) == 0) by {
        vstd::arithmetic::div_mod::lemma_div_of0(one);
    }
    crate::fixed::lemma_fp_mul_nonneg_nonpos(a, c);
    let disc = fp_sub_spec(0, fp_mul_spec(a, c));
    assert(0 <= disc <= i64::MAX);
    crate::fixed::lemma_isqrt_exists(disc * one);
    let s = fp_sqrt_spec(disc);
    assert(crate::fixed::is_isqrt(disc * one, s)) by {
        let w = choose|r: int| #[trigger] crate::fixed::is_isqrt(disc * one, r);
        crate::fixed::lemma_isqrt_unique(disc * one, w);
    }
    assert(disc * one < 0x1_0000_0000_0000_0000_0000) by (nonlinear_arith)
        requires
            0 <= disc <= i64::MAX,
            one == 65536,
    ;
    assert(s <= 0x100_0000_0000) by (nonlinear_arith)
        requires
            crate::fixed::is_isqrt(disc * one, s),
            disc * one < 0x1_0000_0000_0000_0000_0000,
    ;
    assert(fp_sub_spec(fp_neg_spec(0), s) == -s);
    assert(fp_add_spec(fp_neg_spec(0), s) == s);
    assert(s * one >= 0 && s * one <= 0x100_0000_0000_0000_0000) by (nonlinear_arith)
        requires
            0 <= s <= 0x100_0000_0000,
            one == 65536,
    ;
    vstd::arithmetic::div_mod::lemma_div_pos_is_pos(s * one, a);
    vstd::arithmetic::div_mod::lemma_div_nonincreasing(s * one, a);
    assert(crate::fixed::iabs((-s) * one) == s * one) by (nonlinear_arith)
        requires
            s >= 0,
            one > 0,
    ;
    assert(crate::fixed::tdiv((-s) * one, a) == -crate::fixed::tdiv(s * one, a));
}

impl Sphere {
    /// A static sphere; its box spans the radius in every direction.
    pub fn new(center: Vec3, radius: i64, mat: usize) -> (r: Sphere)
        ensures
            r.center1 == center,
            r.center_vec == (Vec3 { x: 0, y: 0, z: 0 }),
            r.radius == radius,
            r.mat == mat,
            !r.is_moving,
            r.bbox == aabb_from_points_spec(
                vec_sub_spec(center, Vec3 { x: radius, y: radius, z: radius }),
                vec_add_spec(center, Vec3 { x: radius, y: radius, z: radius }),
            ),
    {
        let rvec = Vec3::new(radius, radius, radius);
        Sphere {
            center1: center,
            center_vec: Vec3::new(0, 0, 0),
            radius,
            mat,
            is_moving: false,
            bbox: Aabb::from_points(center.minus(rvec), center.plus(rvec)),
        }
    }

    /// A sphere moving from `center1` to `center2` over the shutter interval;
    /// its box is the union of the boxes at the two endpoints.
    pub fn new_movable(center1: Vec3, center2: Vec3, radius: i64, mat: usize) -> (r: Sphere)
        ensures
            r.center1 == center1,
            r.center_vec == vec_sub_spec(center2, center1),
            r.radius == radius,
            r.mat == mat,
            r.is_moving,
            r.bbox == aabb_union_spec(
                aabb_from_points_spec(
                    vec_sub_spec(center1, Vec3 { x: radius, y: radius, z: radius }),
                    vec_add_spec(center1, Vec3 { x: radius, y: radius, z: radius }),
                ),
                aabb_from_points_spec(
                    vec_sub_spec(center2, Vec3 { x: radius, y: radius, z: radius }),
                    vec_add_spec(center2, Vec3 { x: radius, y: radius, z: radius }),
                ),
            ),
    {
        let rvec = Vec3::new(radius, radius, radius);
        let box1 = Aabb::from_points(center1.minus(rvec), center1.plus(rvec));
        let box2 = Aabb::from_points(center2.minus(rvec), center2.plus(rvec));
        Sphere {
            center1,
            center_vec: center2.minus(center1),
            radius,
            mat,
            is_moving: true,
            bbox: Aabb::from_boxes(box1, box2),
        }
    }

    /// The center at a moment of the shutter interval.
    fn center(&self, time: i64) -> (r: Vec3)
        ensures
            r == sphere_center_spec(*self, time),
    {
        if self.is_moving {
            self.center1.plus(self.center_vec.scale(time))
        } else {
            self.center1
        }
    }

    /// Texture coordinates of a point on the unit sphere.
    pub fn get_sphere_uv(p: Vec3, u: &mut i64, v: &mut i64)
        ensures
            *final(u) as int == sphere_uv_spec(p).0,
            *final(v) as int == sphere_uv_spec(p).1,
    {
        let theta = crate::trig::fp_acos(fp_neg(p.y));
        let phi = fp_add(crate::trig::fp_atan2(fp_neg(p.z), p.x), FP_PI);
        *u = fp_div(phi, FP_TWO_PI);
        *v = fp_div(theta, FP_PI);
    }

    /// The closest intersection strictly inside the query interval, if any.
    pub fn hit(&self, r: &Ray, ray_t: Interval) -> (res: Option<HitRecord>)
        ensures
            res == sphere_hit_spec(*self, *r, ray_t),
            res matches Option::Some(rec) ==> surrounds_spec(ray_t, rec.t) && rec.mat == self.mat,
    {
        let center = self.center(r.time());
        let oc = r.origin().minus(center);
        let a = r.direction().dot(r.direction());
        let half_b = oc.dot(r.direction());
        let c = fp_sub(oc.dot(oc), fp_mul(self.radius, self.radius));
        let discriminant = fp_sub(fp_mul(half_b, half_b), fp_mul(a, c));

        if discriminant < 0 {
            return Option::None;
        }
        let sqrtd = fp_sqrt(discriminant);

        let mut root = fp_div(fp_sub(fp_neg(half_b), sqrtd), a);
        if !ray_t.surrounds(root) {
            root = fp_div(fp_add(fp_neg(half_b), sqrtd), a);
            if !ray_t.surrounds(root) {
                return Option::None;
            }
        }

        let p = r.at(root);
        let outward_normal = p.minus(center).divide(self.radius);
        let mut rec = HitRecord::new();
        rec.t = root;
        rec.p = p;
        rec.mat = self.mat;
        rec.set_face_normal(r, outward_normal);
        let mut u: i64 = 0;
        let mut v: i64 = 0;
        Sphere::get_sphere_uv(outward_normal, &mut u, &mut v);
        rec.u = u;
        rec.v = v;
        proof {
            assert(rec == sphere_record_spec(*self, *r, root, center));
        }
        Option::Some(rec)
    }
}

} // verus!
