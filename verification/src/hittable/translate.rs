//! The translation decorator: offset the ray backward, delegate, offset the
//! hit point forward.

use vstd::prelude::*;

use crate::aabb::Aabb;
use crate::aabb::aabb_translate_spec;
use crate::hittable::HitRecord;
use crate::hittable::Hittable;
use crate::hittable::bounding_box_spec;
use crate::hittable::hit_spec;
use crate::hittable::wf;
use crate::interval::Interval;
use crate::ray::Ray;
use crate::rng::Rng;
use crate::vec3::Vec3;
use crate::vec3::vec_add_spec;
use crate::vec3::vec_sub_spec;

verus! {

/// A child object shifted by a fixed offset.
pub struct Translate {
    pub object: Box<Hittable>,
    pub offset: Vec3,
    pub bbox: Aabb,
}

/// Intersection with a translated object: probe the child with the ray moved
/// backward by the offset, then move the hit point forward by it.
pub open spec fn translate_hit_spec(t: Translate, r: Ray, ray_t: Interval) -> Option<HitRecord>
    decreases t, 0int,
{
    let offset_r = Ray {
        origin: vec_sub_spec(r.origin, t.offset),
        direction: r.direction,
        tm: r.tm,
    };
    match hit_spec(*t.object, offset_r, ray_t) {
        Option::None => Option::None,
        Option::Some(rec) => Option::Some(HitRecord { p: vec_add_spec(rec.p, t.offset), ..rec }),
    }
}

/// The full model of the translated intersection, over the generator state.
pub open spec fn translate_hit_rng_spec(t: Translate, r: Ray, ray_t: Interval, s: u64) -> (
    Option<HitRecord>,
    u64,
)
    decreases t, 0int,
{
    let offset_r = Ray {
        origin: vec_sub_spec(r.origin, t.offset),
        direction: r.direction,
        tm: r.tm,
    };
    let probe = crate::hittable::hit_rng_spec(*t.object, offset_r, ray_t, s);
    (
        match probe.0 {
            Option::None => Option::None,
            Option::Some(rec) => Option::Some(HitRecord { p: vec_add_spec(rec.p, t.offset), ..rec }),
        },
        probe.1,
    )
}

impl Translate {
    /// Wrap an object; the box is the child's box shifted by the offset.
    pub fn new(p: Hittable, displacement: Vec3) -> (r: Translate)
        ensures
            *r.object == p,
            r.offset == displacement,
            r.bbox == aabb_translate_spec(bounding_box_spec(p), displacement),
    {
        let bbox = p.bounding_box().translate(displacement);
        Translate { object: Box::new(p), offset: displacement, bbox }
    }

    /// Probe the child along the backward-offset ray and shift the hit
    /// point forward.
    pub fn hit(&self, r: &Ray, ray_t: Interval, rng: &mut Rng) -> (res: Option<HitRecord>)
        ensures
            res == translate_hit_rng_spec(*self, *r, ray_t, old(rng)@).0,
            final(rng)@ == translate_hit_rng_spec(*self, *r, ray_t, old(rng)@).1,
            res matches Option::Some(rec) ==> ray_t.min <= rec.t <= ray_t.max,
            forall|n: int|
                #[trigger] wf(Hittable::Translate(*self), n) ==> (res matches Option::Some(rec)
                    ==> rec.mat < n),
        decreases self, 0int,
    {
        let offset_r = Ray::new_timed(r.origin().minus(self.offset), r.direction(), r.time());
        proof {
            assert(forall|n: int|
                #[trigger] wf(Hittable::Translate(*self), n) ==> wf(*self.object, n));
        }
        match self.object.hit(&offset_r, ray_t, rng) {
            Option::None => Option::None,
            Option::Some(rec) => {
                let mut rec2 = rec;
                rec2.p = rec.p.plus(self.offset);
                Option::Some(rec2)
            },
        }
    }
}

} // verus!
