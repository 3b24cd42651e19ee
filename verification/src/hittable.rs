//! The intersectable scene objects: a closed sum type over the primitive
//! shapes, the flat aggregate, the spatial index, the coordinate-transform
//! decorators and the participating medium.

pub mod bvh;
pub mod constant_medium;
pub mod hittable_list;
pub mod quad;
pub mod rotate_y;
pub mod sphere;
pub mod translate;

use vstd::prelude::*;

use crate::aabb::Aabb;
use crate::aabb::aabb_hit_spec;
use crate::interval::Interval;
use crate::ray::Ray;
use crate::rng::Rng;
use crate::vec3::Vec3;
use crate::vec3::dot_spec;
use crate::vec3::vec_neg_spec;
use bvh::BVHNode;
use constant_medium::ConstantMedium;
use hittable_list::HittableList;
use quad::Quad;
use rotate_y::RotateY;
use sphere::Sphere;
use translate::Translate;

verus! {

/// The best intersection found so far: hit point, surface normal, the handle
/// of the material in the scene's material arena, the ray parameter, the
/// facing of the normal, and the surface coordinates.
#[derive(Clone, Copy, Debug, PartialEq, Eq, Structural)]
pub struct HitRecord {
    pub p: Vec3,
    pub normal: Vec3,
    pub mat: usize,
    pub t: i64,
    pub front_face: bool,
    pub u: i64,
    pub v: i64,
}

/// The record with its normal oriented against the ray: the stored normal is
/// the outward normal when the ray arrives from outside, else its negation.
pub open spec fn face_normal_spec(rec: HitRecord, r: Ray, outward_normal: Vec3) -> HitRecord {
    let front = dot_spec(r.direction, outward_normal) < 0;
    HitRecord {
        front_face: front,
        normal: if front {
            outward_normal
        } else {
            vec_neg_spec(outward_normal)
        },
        ..rec
    }
}

impl HitRecord {
    /// A blank record; every field is overwritten before use.
    pub fn new() -> (r: HitRecord)
        ensures
            r == (HitRecord {
                p: Vec3 { x: 0, y: 0, z: 0 },
                normal: Vec3 { x: 0, y: 0, z: 0 },
                mat: 0,
                t: 0,
                front_face: false,
                u: 0,
                v: 0,
            }),
    {
        HitRecord {
            p: Vec3 { x: 0, y: 0, z: 0 },
            normal: Vec3 { x: 0, y: 0, z: 0 },
            mat: 0,
            t: 0,
            front_face: false,
            u: 0,
            v: 0,
        }
    }

    /// Orient the normal against the ray, assuming `outward_normal` has unit
    /// length, and remember which side was hit.
    pub fn set_face_normal(&mut self, r: &Ray, outward_normal: Vec3)
        ensures
            *final(self) == face_normal_spec(*old(self), *r, outward_normal),
    {
        self.front_face = r.direction().dot(outward_normal) < 0;
        if self.front_face {
            self.normal = outward_normal;
        } else {
            self.normal = outward_normal.negate();
        }
    }

    /// The handle of the material that was hit.
    pub fn mat(&self) -> (r: usize)
        ensures
            r == self.mat,
    {
        self.mat
    }
}

/// Every kind of object a ray can strike. The variant set is closed, so
/// intersection dispatch is a pattern match rather than dynamic dispatch.
pub enum Hittable {
    Sphere(Sphere),
    Quad(Quad),
    List(HittableList),
    Bvh(BVHNode),
    Translate(Translate),
    RotateY(RotateY),
    Medium(ConstantMedium),
}

/// Objects whose intersection consumes no randomness: everything but a
/// participating medium.
pub open spec fn deterministic(h: Hittable) -> bool
    decreases h, 1int,
{
    match h {
        Hittable::Sphere(_) => true,
        Hittable::Quad(_) => true,
        Hittable::List(l) => all_deterministic(l.objects@),
        Hittable::Bvh(b) => deterministic(*b.left) && deterministic(*b.right),
        Hittable::Translate(t) => deterministic(*t.object),
        Hittable::RotateY(ry) => deterministic(*ry.object),
        Hittable::Medium(_) => false,
    }
}

/// Every object of the sequence is deterministic.
pub open spec fn all_deterministic(s: Seq<Hittable>) -> bool
    decreases s, 0int,
{
    if s.len() == 0 {
        true
    } else {
        deterministic(s[0]) && all_deterministic(s.subrange(1, s.len() as int))
    }
}

/// Every material handle in the object lies below `n`, the size of the
/// material arena it will be resolved against.
pub open spec fn wf(h: Hittable, n: int) -> bool
    decreases h, 1int,
{
    match h {
        Hittable::Sphere(s) => s.mat < n,
        Hittable::Quad(q) => q.mat < n,
        Hittable::List(l) => all_wf(l.objects@, n),
        Hittable::Bvh(b) => wf(*b.left, n) && wf(*b.right, n),
        Hittable::Translate(t) => wf(*t.object, n),
        Hittable::RotateY(ry) => wf(*ry.object, n),
        Hittable::Medium(m) => wf(*m.boundary, n) && m.phase_function < n,
    }
}

/// Every object of the sequence has its handles below `n`.
pub open spec fn all_wf(s: Seq<Hittable>, n: int) -> bool
    decreases s, 0int,
{
    if s.len() == 0 {
        true
    } else {
        wf(s[0], n) && all_wf(s.subrange(1, s.len() as int), n)
    }
}

/// Each member of a sequence of deterministic objects is deterministic.
pub proof fn lemma_all_deterministic_index(s: Seq<Hittable>, i: int)
    requires
        all_deterministic(s),
        0 <= i < s.len(),
    ensures
        deterministic(s[i]),
    decreases s.len(),
{
    if i > 0 {
        lemma_all_deterministic_index(s.subrange(1, s.len() as int), i - 1);
        assert(s.subrange(1, s.len() as int)[i - 1] == s[i]);
    }
}

/// Appending a deterministic object keeps a sequence deterministic.
pub proof fn lemma_all_deterministic_push(s: Seq<Hittable>, x: Hittable)
    requires
        all_deterministic(s),
        deterministic(x),
    ensures
        all_deterministic(s.push(x)),
    decreases s.len(),
{
    let sp = s.push(x);
    if s.len() == 0 {
        let e = sp.subrange(1, sp.len() as int);
        assert(e =~= Seq::<Hittable>::empty());
        assert(e.len() == 0);
        assert(all_deterministic(e));
        assert(sp[0] == x);
    } else {
        lemma_all_deterministic_push(s.subrange(1, s.len() as int), x);
        assert(sp.subrange(1, sp.len() as int) =~= s.subrange(1, s.len() as int).push(x));
        assert(all_deterministic(sp.subrange(1, sp.len() as int)));
        assert(sp[0] == s[0]);
        assert(deterministic(sp[0]));
    }
    assert(sp.len() > 0);
}

/// Each member of a well-formed sequence is well-formed.
pub proof fn lemma_all_wf_index(s: Seq<Hittable>, n: int, i: int)
    requires
        all_wf(s, n),
        0 <= i < s.len(),
    ensures
        wf(s[i], n),
    decreases s.len(),
{
    if i > 0 {
        lemma_all_wf_index(s.subrange(1, s.len() as int), n, i - 1);
        assert(s.subrange(1, s.len() as int)[i - 1] == s[i]);
    }
}

/// Extending the checked prefix by one object: the prefix of length `i + 1`
/// is well-formed exactly when the prefix of length `i` and the object at
/// `i` both are.
pub proof fn lemma_all_wf_snoc(s: Seq<Hittable>, i: int, n: int)
    requires
        0 <= i < s.len(),
    ensures
        all_wf(s.subrange(0, i + 1), n) == (all_wf(s.subrange(0, i), n) && wf(s[i], n)),
{
    let pre = s.subrange(0, i);
    let post = s.subrange(0, i + 1);
    assert(post =~= pre.push(s[i]));
    if all_wf(pre, n) && wf(s[i], n) {
        lemma_all_wf_push(pre, n, s[i]);
    }
    if all_wf(post, n) {
        lemma_all_wf_index(post, n, i);
        assert(post[i] == s[i]);
        lemma_all_wf_contains(post, n);
        lemma_all_wf_contains(pre, n);
        assert forall|x: Hittable| #[trigger] pre.contains(x) implies wf(x, n) by {
            let j = choose|j: int| 0 <= j < pre.len() && pre[j] == x;
            assert(post[j] == x);
            assert(post.contains(x));
        }
    }
}

/// Appending a well-formed object keeps a sequence well-formed.
pub proof fn lemma_all_wf_push(s: Seq<Hittable>, n: int, x: Hittable)
    requires
        all_wf(s, n),
        wf(x, n),
    ensures
        all_wf(s.push(x), n),
    decreases s.len(),
{
    let sp = s.push(x);
    if s.len() == 0 {
        let e = sp.subrange(1, sp.len() as int);
        assert(e =~= Seq::<Hittable>::empty());
        assert(e.len() == 0);
        assert(all_wf(e, n));
        assert(sp[0] == x);
    } else {
        lemma_all_wf_push(s.subrange(1, s.len() as int), n, x);
        assert(sp.subrange(1, sp.len() as int) =~= s.subrange(1, s.len() as int).push(x));
        assert(all_wf(sp.subrange(1, sp.len() as int), n));
        assert(sp[0] == s[0]);
        assert(wf(sp[0], n));
    }
    assert(sp.len() > 0);
}

/// The box each object reports: primitives and decorators cache theirs, the
/// aggregate and the index keep the running union of their members'.
pub open spec fn bounding_box_spec(h: Hittable) -> Aabb
    decreases h,
{
    match h {
        Hittable::Sphere(s) => s.bbox,
        Hittable::Quad(q) => q.bbox,
        Hittable::List(l) => l.bbox,
        Hittable::Bvh(b) => b.bbox,
        Hittable::Translate(t) => t.bbox,
        Hittable::RotateY(ry) => ry.bbox,
        Hittable::Medium(m) => bounding_box_spec(*m.boundary),
    }
}

/// The objects an index node stands for: index nodes flatten into their
/// children's leaves, an empty aggregate stands for nothing, and every other
/// object stands for itself.
pub open spec fn leaves(h: Hittable) -> Seq<Hittable>
    decreases h,
{
    match h {
        Hittable::Bvh(b) => leaves(*b.left) + leaves(*b.right),
        Hittable::List(l) => if l.objects@.len() == 0 {
            Seq::empty()
        } else {
            seq![h]
        },
        _ => seq![h],
    }
}

/// The leaves of each member of a sequence, concatenated in order: what a
/// whole input to the index build stands for.
pub open spec fn leaves_of_all(s: Seq<Hittable>) -> Seq<Hittable>
    decreases s,
{
    if s.len() == 0 {
        Seq::empty()
    } else {
        leaves(s[0]) + leaves_of_all(s.subrange(1, s.len() as int))
    }
}

/// `x` stands among the leaves of some member of `s`.
pub open spec fn in_leaves(x: Hittable, s: Seq<Hittable>) -> bool {
    exists|j: int| 0 <= j < s.len() && #[trigger] leaves(s[j]).contains(x)
}

/// A sequence is entirely well-formed exactly when each member it contains
/// is.
pub proof fn lemma_all_wf_contains(s: Seq<Hittable>, n: int)
    ensures
        all_wf(s, n) <==> (forall|x: Hittable| #[trigger] s.contains(x) ==> wf(x, n)),
    decreases s.len(),
{
    if s.len() > 0 {
        let rest = s.subrange(1, s.len() as int);
        lemma_all_wf_contains(rest, n);
        if all_wf(s, n) {
            assert forall|x: Hittable| #[trigger] s.contains(x) implies wf(x, n) by {
                let j = choose|j: int| 0 <= j < s.len() && s[j] == x;
                if j == 0 {
                } else {
                    assert(rest[j - 1] == x);
                    assert(rest.contains(x));
                }
            }
        }
        if forall|x: Hittable| #[trigger] s.contains(x) ==> wf(x, n) {
            assert(s.contains(s[0]));
            assert forall|x: Hittable| #[trigger] rest.contains(x) implies wf(x, n) by {
                let j = choose|j: int| 0 <= j < rest.len() && rest[j] == x;
                assert(s[j + 1] == x);
                assert(s.contains(x));
            }
        }
    }
}

/// A sequence is entirely deterministic exactly when each member it
/// contains is.
pub proof fn lemma_all_deterministic_contains(s: Seq<Hittable>)
    ensures
        all_deterministic(s) <==> (forall|x: Hittable| #[trigger] s.contains(x) ==> deterministic(
            x,
        )),
    decreases s.len(),
{
    if s.len() > 0 {
        let rest = s.subrange(1, s.len() as int);
        lemma_all_deterministic_contains(rest);
        if all_deterministic(s) {
            assert forall|x: Hittable| #[trigger] s.contains(x) implies deterministic(x) by {
                let j = choose|j: int| 0 <= j < s.len() && s[j] == x;
                if j == 0 {
                } else {
                    assert(rest[j - 1] == x);
                    assert(rest.contains(x));
                }
            }
        }
        if forall|x: Hittable| #[trigger] s.contains(x) ==> deterministic(x) {
            assert(s.contains(s[0]));
            assert forall|x: Hittable| #[trigger] rest.contains(x) implies deterministic(x) by {
                let j = choose|j: int| 0 <= j < rest.len() && rest[j] == x;
                assert(s[j + 1] == x);
                assert(s.contains(x));
            }
        }
    }
}

/// What a randomness-free intersection returns: the closest hit with `t`
/// strictly inside the query interval, or nothing. A participating medium is
/// not deterministic and maps to nothing here; its behaviour is stated on its
/// own method over the generator's state.
pub open spec fn hit_spec(h: Hittable, r: Ray, ray_t: Interval) -> Option<HitRecord>
    decreases h, 1int,
{
    match h {
        Hittable::Sphere(s) => sphere::sphere_hit_spec(s, r, ray_t),
        Hittable::Quad(q) => quad::quad_hit_spec(q, r, ray_t),
        Hittable::List(l) => scan_spec(l.objects@, r, ray_t),
        Hittable::Bvh(b) => bvh_hit_spec(b, r, ray_t),
        Hittable::Translate(t) => translate::translate_hit_spec(t, r, ray_t),
        Hittable::RotateY(ry) => rotate_y::rotate_y_hit_spec(ry, r, ray_t),
        Hittable::Medium(_) => Option::None,
    }
}

/// A left-to-right scan over objects, tightening the upper bound of the
/// query interval to the best `t` found so far, so a later member can only
/// replace the record with a strictly closer hit.
pub open spec fn scan_spec(objs: Seq<Hittable>, r: Ray, ray_t: Interval) -> Option<HitRecord>
    decreases objs, 0int,
{
    if objs.len() == 0 {
        Option::None
    } else {
        let first = hit_spec(objs[0], r, ray_t);
        let rest = objs.subrange(1, objs.len() as int);
        match first {
            Option::None => scan_spec(rest, r, ray_t),
            Option::Some(rec) => match scan_spec(
                rest,
                r,
                Interval { min: ray_t.min, max: rec.t },
            ) {
                Option::None => Option::Some(rec),
                Option::Some(rec2) => Option::Some(rec2),
            },
        }
    }
}

/// Index traversal: prune when the node's box misses the ray, otherwise
/// probe the left child over the full range and the right child over the
/// range tightened to the left hit, so the right probe can only improve.
pub open spec fn bvh_hit_spec(b: BVHNode, r: Ray, ray_t: Interval) -> Option<HitRecord>
    decreases b, 2int,
{
    if !aabb_hit_spec(b.bbox, r, ray_t) {
        Option::None
    } else {
        let left = hit_spec(*b.left, r, ray_t);
        let right_t = Interval {
            min: ray_t.min,
            max: match left {
                Option::Some(rec) => rec.t,
                Option::None => ray_t.max,
            },
        };
        match hit_spec(*b.right, r, right_t) {
            Option::Some(rec2) => Option::Some(rec2),
            Option::None => left,
        }
    }
}

/// What an intersection returns and what it leaves of the generator, for
/// every object: deterministic objects pass the state through untouched
/// (`lemma_deterministic_hit`), and a participating medium consumes draws as
/// its own model says. This is the full model of `hit`; `hit_spec` is its
/// randomness-free restriction.
pub open spec fn hit_rng_spec(h: Hittable, r: Ray, ray_t: Interval, s: u64) -> (
    Option<HitRecord>,
    u64,
)
    decreases h, 1int,
{
    match h {
        Hittable::Sphere(sp) => (sphere::sphere_hit_spec(sp, r, ray_t), s),
        Hittable::Quad(q) => (quad::quad_hit_spec(q, r, ray_t), s),
        Hittable::List(l) => scan_rng_spec(l.objects@, r, ray_t, s),
        Hittable::Bvh(b) => bvh_hit_rng_spec(b, r, ray_t, s),
        Hittable::Translate(t) => translate::translate_hit_rng_spec(t, r, ray_t, s),
        Hittable::RotateY(ry) => rotate_y::rotate_y_hit_rng_spec(ry, r, ray_t, s),
        Hittable::Medium(m) => constant_medium::medium_hit_spec(m, r, ray_t, s),
    }
}

/// The scan of `scan_spec`, threading the generator state through each
/// member in order.
pub open spec fn scan_rng_spec(objs: Seq<Hittable>, r: Ray, ray_t: Interval, s: u64) -> (
    Option<HitRecord>,
    u64,
)
    decreases objs, 0int,
{
    if objs.len() == 0 {
        (Option::None, s)
    } else {
        let first = hit_rng_spec(objs[0], r, ray_t, s);
        let rest = objs.subrange(1, objs.len() as int);
        match first.0 {
            Option::None => scan_rng_spec(rest, r, ray_t, first.1),
            Option::Some(rec) => {
                let rest_res = scan_rng_spec(
                    rest,
                    r,
                    Interval { min: ray_t.min, max: rec.t },
                    first.1,
                );
                (
                    match rest_res.0 {
                        Option::None => Option::Some(rec),
                        Option::Some(rec2) => Option::Some(rec2),
                    },
                    rest_res.1,
                )
            },
        }
    }
}

/// The traversal of `bvh_hit_spec`, threading the generator state through
/// the left and then the right probe.
pub open spec fn bvh_hit_rng_spec(b: BVHNode, r: Ray, ray_t: Interval, s: u64) -> (
    Option<HitRecord>,
    u64,
)
    decreases b, 2int,
{
    if !aabb_hit_spec(b.bbox, r, ray_t) {
        (Option::None, s)
    } else {
        let left = hit_rng_spec(*b.left, r, ray_t, s);
        let right_t = Interval {
            min: ray_t.min,
            max: match left.0 {
                Option::Some(rec) => rec.t,
                Option::None => ray_t.max,
            },
        };
        let right = hit_rng_spec(*b.right, r, right_t, left.1);
        (
            match right.0 {
                Option::Some(rec2) => Option::Some(rec2),
                Option::None => left.0,
            },
            right.1,
        )
    }
}

/// A deterministic object consumes no randomness: its full model returns the
/// randomness-free model's hit and leaves the generator state untouched,
/// from every starting state.
pub proof fn lemma_deterministic_hit(h: Hittable, r: Ray, ray_t: Interval, s: u64)
    requires
        deterministic(h),
    ensures
        hit_rng_spec(h, r, ray_t, s) == (hit_spec(h, r, ray_t), s),
    decreases h, 1int,
{
    match h {
        Hittable::List(l) => {
            lemma_deterministic_scan(l.objects@, r, ray_t, s);
        },
        Hittable::Bvh(b) => {
            if aabb_hit_spec(b.bbox, r, ray_t) {
                lemma_deterministic_hit(*b.left, r, ray_t, s);
                match hit_spec(*b.left, r, ray_t) {
                    Option::Some(rec) => {
                        lemma_deterministic_hit(
                            *b.right,
                            r,
                            Interval { min: ray_t.min, max: rec.t },
                            s,
                        );
                    },
                    Option::None => {
                        lemma_deterministic_hit(
                            *b.right,
                            r,
                            Interval { min: ray_t.min, max: ray_t.max },
                            s,
                        );
                        assert(Interval { min: ray_t.min, max: ray_t.max } == ray_t);
                    },
                }
            }
        },
        Hittable::Translate(t) => {
            let offset_r = Ray {
                origin: crate::vec3::vec_sub_spec(r.origin, t.offset),
                direction: r.direction,
                tm: r.tm,
            };
            lemma_deterministic_hit(*t.object, offset_r, ray_t, s);
        },
        Hittable::RotateY(ry) => {
            lemma_deterministic_hit(*ry.object, rotate_y::rotated_ray_spec(ry, r), ray_t, s);
        },
        _ => {},
    }
}

/// A scan over deterministic objects consumes no randomness either.
pub proof fn lemma_deterministic_scan(objs: Seq<Hittable>, r: Ray, ray_t: Interval, s: u64)
    requires
        all_deterministic(objs),
    ensures
        scan_rng_spec(objs, r, ray_t, s) == (scan_spec(objs, r, ray_t), s),
    decreases objs, 0int,
{
    if objs.len() > 0 {
        let rest = objs.subrange(1, objs.len() as int);
        lemma_deterministic_hit(objs[0], r, ray_t, s);
        match hit_spec(objs[0], r, ray_t) {
            Option::None => {
                lemma_deterministic_scan(rest, r, ray_t, s);
            },
            Option::Some(rec) => {
                lemma_deterministic_scan(rest, r, Interval { min: ray_t.min, max: rec.t }, s);
            },
        }
    }
}

impl Hittable {
    /// The closest intersection with `t` strictly inside the query interval,
    /// or nothing: exactly what `hit_rng_spec` says of the result and of the
    /// generator's state. Deterministic objects leave the state untouched
    /// and agree with `hit_spec` (`lemma_deterministic_hit`).
    pub fn hit(&self, r: &Ray, ray_t: Interval, rng: &mut Rng) -> (res: Option<HitRecord>)
        ensures
            res == hit_rng_spec(*self, *r, ray_t, old(rng)@).0,
            final(rng)@ == hit_rng_spec(*self, *r, ray_t, old(rng)@).1,
            res matches Option::Some(rec) ==> ray_t.min <= rec.t <= ray_t.max,
            forall|n: int|
                #[trigger] wf(*self, n) ==> (res matches Option::Some(rec) ==> rec.mat < n),
        decreases self, 1int,
    {
        match self {
            Hittable::Sphere(s) => s.hit(r, ray_t),
            Hittable::Quad(q) => q.hit(r, ray_t),
            Hittable::List(l) => l.hit(r, ray_t, rng),
            Hittable::Bvh(b) => b.hit(r, ray_t, rng),
            Hittable::Translate(t) => t.hit(r, ray_t, rng),
            Hittable::RotateY(ry) => ry.hit(r, ray_t, rng),
            Hittable::Medium(m) => m.hit(r, ray_t, rng),
        }
    }

    /// Decide whether every material handle lies below `n`, so unverified
    /// callers can establish well-formedness before rendering.
    pub fn check_wf(&self, n: usize) -> (r: bool)
        ensures
            r == wf(*self, n as int),
        decreases self, 1int,
    {
        match self {
            Hittable::Sphere(s) => s.mat < n,
            Hittable::Quad(q) => q.mat < n,
            Hittable::List(l) => l.check_wf(n),
            Hittable::Bvh(b) => b.left.check_wf(n) && b.right.check_wf(n),
            Hittable::Translate(t) => t.object.check_wf(n),
            Hittable::RotateY(ry) => ry.object.check_wf(n),
            Hittable::Medium(m) => m.boundary.check_wf(n) && m.phase_function < n,
        }
    }

    /// The box bounding the object over its whole motion domain.
    pub fn bounding_box(&self) -> (r: Aabb)
        ensures
            r == bounding_box_spec(*self),
        decreases self,
    {
        match self {
            Hittable::Sphere(s) => s.bbox,
            Hittable::Quad(q) => q.bbox,
            Hittable::List(l) => l.bbox,
            Hittable::Bvh(b) => b.bbox,
            Hittable::Translate(t) => t.bbox,
            Hittable::RotateY(ry) => ry.bbox,
            Hittable::Medium(m) => m.boundary.bounding_box(),
        }
    }
}

} // verus!
