//! The flat, unordered aggregate of scene objects.

use vstd::prelude::*;

use crate::aabb::Aabb;
use crate::aabb::aabb_union_spec;
use crate::hittable::HitRecord;
use crate::hittable::Hittable;
use crate::hittable::wf;
use crate::interval::Interval;
use crate::ray::Ray;
use crate::rng::Rng;

verus! {

/// An unordered aggregate: the members and the running union of their boxes,
/// updated as members are added.
pub struct HittableList {
    pub objects: Vec<Hittable>,
    pub bbox: Aabb,
}

impl HittableList {
    /// An aggregate with no members and an empty box.
    pub fn empty() -> (r: HittableList)
        ensures
            r.objects@.len() == 0,
            r.bbox == (Aabb {
                x: crate::interval::interval_empty(),
                y: crate::interval::interval_empty(),
                z: crate::interval::interval_empty(),
            }),
    {
        HittableList { objects: Vec::new(), bbox: Aabb::new() }
    }

    /// An aggregate holding one object.
    pub fn new(object: Hittable) -> (r: HittableList)
        ensures
            r.objects@.len() == 1,
            r.objects@[0] == object,
            r.bbox == aabb_union_spec(
                Aabb {
                    x: crate::interval::interval_empty(),
                    y: crate::interval::interval_empty(),
                    z: crate::interval::interval_empty(),
                },
                crate::hittable::bounding_box_spec(object),
            ),
    {
        let mut list = HittableList::empty();
        list.add(object);
        list
    }

    /// Add a member and fold its box into the running union.
    pub fn add(&mut self, object: Hittable)
        ensures
            final(self).objects@ == old(self).objects@.push(object),
            final(self).bbox == aabb_union_spec(
                old(self).bbox,
                crate::hittable::bounding_box_spec(object),
            ),
    {
        let b = object.bounding_box();
        self.objects.push(object);
        self.bbox = Aabb::from_boxes(self.bbox, b);
    }

    /// Decide whether every member's material handles lie below `n`.
    pub fn check_wf(&self, n: usize) -> (r: bool)
        ensures
            r == crate::hittable::all_wf(self.objects@, n as int),
        decreases self, 0int,
    {
        let mut i: usize = 0;
        let len = self.objects.len();
        let mut ok = true;
        while i < len
            invariant
                len == self.objects@.len(),
                i <= len,
                ok == crate::hittable::all_wf(self.objects@.subrange(0, i as int), n as int),
            decreases len - i,
        {
            let this_ok = self.objects[i].check_wf(n);
            proof {
                crate::hittable::lemma_all_wf_snoc(self.objects@, i as int, n as int);
            }
            ok = ok && this_ok;
            i = i + 1;
        }
        proof {
            assert(self.objects@.subrange(0, len as int) == self.objects@);
        }
        ok
    }

    /// Scan all members, progressively tightening the upper bound of the
    /// search range to the best `t` found so far, so later members can only
    /// replace the record with a strictly closer hit.
    pub fn hit(&self, r: &Ray, ray_t: Interval, rng: &mut Rng) -> (res: Option<HitRecord>)
        ensures
            res == crate::hittable::scan_rng_spec(self.objects@, *r, ray_t, old(rng)@).0,
            final(rng)@ == crate::hittable::scan_rng_spec(self.objects@, *r, ray_t, old(rng)@).1,
            res matches Option::Some(rec) ==> ray_t.min <= rec.t <= ray_t.max,
            forall|n: int|
                #[trigger] wf(Hittable::List(*self), n) ==> (res matches Option::Some(rec)
                    ==> rec.mat < n),
        decreases self, 0int,
    {
        let mut best: Option<HitRecord> = Option::None;
        let mut closest_so_far: i64 = ray_t.max;
        let n = self.objects.len();
        let mut i: usize = 0;
        proof {
            assert(self.objects@.subrange(0, n as int) == self.objects@);
        }
        while i < n
            invariant
                n == self.objects@.len(),
                0 <= i <= n,
                best matches Option::Some(rec) ==> closest_so_far == rec.t,
                best is None ==> closest_so_far == ray_t.max,
                best matches Option::Some(rec) ==> ray_t.min <= rec.t <= ray_t.max,
                forall|n2: int|
                    #[trigger] wf(Hittable::List(*self), n2) ==> (best matches Option::Some(rec)
                        ==> rec.mat < n2),
                crate::hittable::scan_rng_spec(self.objects@, *r, ray_t, old(rng)@) == ({
                    let sub = crate::hittable::scan_rng_spec(
                        self.objects@.subrange(i as int, n as int),
                        *r,
                        Interval { min: ray_t.min, max: closest_so_far },
                        rng@,
                    );
                    (
                        match sub.0 {
                            Option::None => best,
                            Option::Some(rec2) => Option::Some(rec2),
                        },
                        sub.1,
                    )
                }),
            decreases n - i,
        {
            let ghost pre = self.objects@.subrange(i as int, n as int);
            proof {
                assert(pre[0] == self.objects@[i as int]);
                assert(pre.subrange(1, pre.len() as int) == self.objects@.subrange(
                    i + 1,
                    n as int,
                ));
                assert forall|n2: int|
                    #[trigger] wf(Hittable::List(*self), n2) implies wf(
                    self.objects@[i as int],
                    n2,
                ) by {
                    crate::hittable::lemma_all_wf_index(self.objects@, n2, i as int);
                }
            }
            let res = self.objects[i].hit(r, Interval::new(ray_t.min, closest_so_far), rng);
            match res {
                Option::Some(rec) => {
                    best = Option::Some(rec);
                    closest_so_far = rec.t;
                },
                Option::None => {},
            }
            i = i + 1;
        }
        proof {
            assert(self.objects@.subrange(n as int, n as int).len() == 0);
        }
        best
    }
}

impl Default for HittableList {
    /// The default aggregate is empty.
    fn default() -> (r: HittableList)
        ensures
            r.objects@.len() == 0,
    {
        HittableList::empty()
    }
}

} // verus!
