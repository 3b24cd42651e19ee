//! The bounding-volume hierarchy: a binary spatial index over objects.

use vstd::prelude::*;

use crate::aabb::Aabb;
use crate::hittable::HitRecord;
use crate::hittable::Hittable;
use crate::hittable::all_deterministic;
use crate::hittable::all_wf;
use crate::hittable::deterministic;
use crate::hittable::hittable_list::HittableList;
use crate::hittable::hit_spec;
use crate::hittable::in_leaves;
use crate::hittable::leaves;
use crate::hittable::leaves_of_all;
use crate::hittable::lemma_all_deterministic_contains;
use crate::hittable::lemma_all_deterministic_index;
use crate::hittable::lemma_all_wf_contains;
use crate::hittable::lemma_all_wf_index;
use crate::hittable::scan_spec;
use crate::hittable::wf;
use crate::interval::Interval;
use crate::ray::Ray;
use crate::rng::Rng;
use crate::rng::random_int_range;

verus! {

/// An index node: two child objects and the cached union of their boxes.
pub struct BVHNode {
    pub left: Box<Hittable>,
    pub right: Box<Hittable>,
    pub bbox: Aabb,
}

/// The sort key of the build: the lower bound of the object's box along the
/// chosen axis.
pub open spec fn box_key(h: Hittable, axis: int) -> int {
    crate::aabb::aabb_axis_spec(crate::hittable::bounding_box_spec(h), axis).min as int
}

/// Sequences with equal multisets contain the same objects.
proof fn lemma_multiset_eq_contains(s1: Seq<Hittable>, s2: Seq<Hittable>)
    requires
        s1.to_multiset() == s2.to_multiset(),
    ensures
        forall|x: Hittable| s1.contains(x) <==> s2.contains(x),
{
    broadcast use vstd::seq_lib::group_to_multiset_ensures;

    assert forall|x: Hittable| s1.contains(x) implies s2.contains(x) by {
        assert(s1.to_multiset().count(x) > 0);
        assert(s2.to_multiset().count(x) > 0);
    }
    assert forall|x: Hittable| s2.contains(x) implies s1.contains(x) by {
        assert(s2.to_multiset().count(x) > 0);
        assert(s1.to_multiset().count(x) > 0);
    }
}

/// Standing among the leaves of a sequence's members depends only on which
/// objects the sequence holds.
proof fn lemma_in_leaves_perm(s1: Seq<Hittable>, s2: Seq<Hittable>)
    requires
        forall|x: Hittable| s1.contains(x) <==> s2.contains(x),
    ensures
        forall|x: Hittable| in_leaves(x, s1) <==> in_leaves(x, s2),
{
    assert forall|x: Hittable| in_leaves(x, s1) implies in_leaves(x, s2) by {
        let j = choose|j: int| 0 <= j < s1.len() && #[trigger] leaves(s1[j]).contains(x);
        assert(s1.contains(s1[j]));
        assert(s2.contains(s1[j]));
        let k = choose|k: int| 0 <= k < s2.len() && s2[k] == s1[j];
        assert(leaves(s2[k]).contains(x));
    }
    assert forall|x: Hittable| in_leaves(x, s2) implies in_leaves(x, s1) by {
        let j = choose|j: int| 0 <= j < s2.len() && #[trigger] leaves(s2[j]).contains(x);
        assert(s2.contains(s2[j]));
        assert(s1.contains(s2[j]));
        let k = choose|k: int| 0 <= k < s1.len() && s1[k] == s2[j];
        assert(leaves(s1[k]).contains(x));
    }
}

/// Standing among the leaves of a split sequence means standing among the
/// leaves of one of its halves.
proof fn lemma_in_leaves_split(s: Seq<Hittable>, mid: int)
    requires
        0 <= mid <= s.len(),
    ensures
        forall|x: Hittable|
            in_leaves(x, s) <==> (in_leaves(x, s.subrange(0, mid)) || in_leaves(
                x,
                s.subrange(mid, s.len() as int),
            )),
{
    let lo = s.subrange(0, mid);
    let hi = s.subrange(mid, s.len() as int);
    assert forall|x: Hittable| in_leaves(x, s) implies (in_leaves(x, lo) || in_leaves(
        x,
        hi,
    )) by {
        let j = choose|j: int| 0 <= j < s.len() && #[trigger] leaves(s[j]).contains(x);
        if j < mid {
            assert(leaves(lo[j]).contains(x));
        } else {
            assert(leaves(hi[j - mid]).contains(x));
        }
    }
    assert forall|x: Hittable| (in_leaves(x, lo) || in_leaves(x, hi)) implies in_leaves(
        x,
        s,
    ) by {
        if in_leaves(x, lo) {
            let j = choose|j: int| 0 <= j < lo.len() && #[trigger] leaves(lo[j]).contains(x);
            assert(leaves(s[j]).contains(x));
        } else {
            let j = choose|j: int| 0 <= j < hi.len() && #[trigger] leaves(hi[j]).contains(x);
            assert(leaves(s[j + mid]).contains(x));
        }
    }
}


/// Combining two halves built from a permutation of the input covers exactly
/// the input's leaves and preserves well-formedness and determinism.
proof fn lemma_split_build(
    orig: Seq<Hittable>,
    sorted: Seq<Hittable>,
    mid: int,
    left: Hittable,
    right: Hittable,
)
    requires
        sorted.to_multiset() == orig.to_multiset(),
        0 <= mid <= sorted.len(),
        forall|x: Hittable|
            #[trigger] leaves(left).contains(x) <==> in_leaves(x, sorted.subrange(0, mid)),
        forall|x: Hittable|
            #[trigger] leaves(right).contains(x) <==> in_leaves(
                x,
                sorted.subrange(mid, sorted.len() as int),
            ),
        forall|n: int| #[trigger] all_wf(sorted.subrange(0, mid), n) ==> wf(left, n),
        forall|n: int|
            #[trigger] all_wf(sorted.subrange(mid, sorted.len() as int), n) ==> wf(right, n),
        all_deterministic(sorted.subrange(0, mid)) ==> deterministic(left),
        all_deterministic(sorted.subrange(mid, sorted.len() as int)) ==> deterministic(right),
    ensures
        forall|x: Hittable|
            #[trigger] (leaves(left) + leaves(right)).contains(x) <==> in_leaves(x, orig),
        forall|n: int| #[trigger] all_wf(orig, n) ==> wf(left, n) && wf(right, n),
        all_deterministic(orig) ==> deterministic(left) && deterministic(right),
{
    let lo = sorted.subrange(0, mid);
    let hi = sorted.subrange(mid, sorted.len() as int);
    lemma_multiset_eq_contains(sorted, orig);
    lemma_in_leaves_perm(sorted, orig);
    lemma_in_leaves_split(sorted, mid);
    lemma_leaves_concat(leaves(left), leaves(right));
    assert(forall|x: Hittable| #[trigger] lo.contains(x) ==> sorted.contains(x)) by {
        assert forall|x: Hittable| #[trigger] lo.contains(x) implies sorted.contains(x) by {
            let j = choose|j: int| 0 <= j < lo.len() && lo[j] == x;
            assert(sorted[j] == x);
        }
    }
    assert(forall|x: Hittable| #[trigger] hi.contains(x) ==> sorted.contains(x)) by {
        assert forall|x: Hittable| #[trigger] hi.contains(x) implies sorted.contains(x) by {
            let j = choose|j: int| 0 <= j < hi.len() && hi[j] == x;
            assert(sorted[j + mid] == x);
        }
    }
    assert forall|n2: int| #[trigger] all_wf(orig, n2) implies wf(left, n2) && wf(right, n2) by {
        lemma_all_wf_contains(orig, n2);
        lemma_all_wf_contains(sorted, n2);
        lemma_all_wf_contains(lo, n2);
        lemma_all_wf_contains(hi, n2);
    }
    if all_deterministic(orig) {
        lemma_all_deterministic_contains(orig);
        lemma_all_deterministic_contains(sorted);
        lemma_all_deterministic_contains(lo);
        lemma_all_deterministic_contains(hi);
    }
}

/// The node boxes of an index prune nothing the ray could hit: whenever the
/// scan of a node's leaves reports a hit over some interval, the node's own
/// box passes the slab test over that interval. Conservative box
/// construction is designed to establish this, and over exact real
/// arithmetic it follows from each node's box being the union of its
/// children's; in any rounded model (this one, or the floating-point one) a
/// hit grazing a box face can in principle lose one quantum to the slab
/// divisions, so completeness is stated under this hypothesis rather than
/// unconditionally.
pub open spec fn covered(h: Hittable, r: Ray) -> bool
    decreases h,
{
    match h {
        Hittable::Bvh(b) => {
            &&& forall|t: Interval|
                scan_spec(leaves(h), r, t) is Some ==> #[trigger] crate::aabb::aabb_hit_spec(
                    b.bbox,
                    r,
                    t,
                )
            &&& covered(*b.left, r)
            &&& covered(*b.right, r)
        },
        _ => true,
    }
}

/// Scanning a concatenation is scanning the first part and then the second
/// over the interval tightened to the first part's best hit.
pub proof fn lemma_scan_concat(s1: Seq<Hittable>, s2: Seq<Hittable>, r: Ray, t: Interval)
    ensures
        scan_spec(s1 + s2, r, t) == (match scan_spec(s1, r, t) {
            Option::None => scan_spec(s2, r, t),
            Option::Some(rec1) => match scan_spec(
                s2,
                r,
                Interval { min: t.min, max: rec1.t },
            ) {
                Option::None => Option::Some(rec1),
                Option::Some(rec2) => Option::Some(rec2),
            },
        }),
    decreases s1.len(),
{
    if s1.len() == 0 {
        assert(s1 + s2 =~= s2);
    } else {
        let rest = s1.subrange(1, s1.len() as int);
        assert((s1 + s2).subrange(1, (s1 + s2).len() as int) =~= rest + s2);
        assert((s1 + s2)[0] == s1[0]);
        match hit_spec(s1[0], r, t) {
            Option::None => {
                lemma_scan_concat(rest, s2, r, t);
            },
            Option::Some(rec) => {
                lemma_scan_concat(rest, s2, r, Interval { min: t.min, max: rec.t });
            },
        }
    }
}

/// Index/brute-force equivalence: under the `covered` hypothesis, traversing
/// an object reports exactly the hit that a linear scan over all of its
/// leaves reports, for every ray and every query interval: it never misses a
/// hit the scan finds and never reports a farther hit when a closer one
/// exists.
pub proof fn lemma_bvh_matches_brute_force(h: Hittable, r: Ray, t: Interval)
    requires
        covered(h, r),
    ensures
        hit_spec(h, r, t) == scan_spec(leaves(h), r, t),
    decreases h,
{
    reveal_with_fuel(scan_spec, 3);
    match h {
        Hittable::Bvh(b) => {
            let lv = leaves(h);
            if !crate::aabb::aabb_hit_spec(b.bbox, r, t) {
                if scan_spec(lv, r, t) is Some {
                    assert(crate::aabb::aabb_hit_spec(b.bbox, r, t));
                }
            } else {
                lemma_bvh_matches_brute_force(*b.left, r, t);
                lemma_scan_concat(leaves(*b.left), leaves(*b.right), r, t);
                assert(lv == leaves(*b.left) + leaves(*b.right));
                match hit_spec(*b.left, r, t) {
                    Option::None => {
                        lemma_bvh_matches_brute_force(*b.right, r, t);
                        assert(Interval { min: t.min, max: t.max } == t);
                    },
                    Option::Some(rec) => {
                        lemma_bvh_matches_brute_force(
                            *b.right,
                            r,
                            Interval { min: t.min, max: rec.t },
                        );
                    },
                }
            }
        },
        Hittable::List(l) => {
            if l.objects@.len() == 0 {
                assert(leaves(h) =~= Seq::<Hittable>::empty());
            } else {
                let lv = leaves(h);
                assert(lv =~= seq![h]);
                assert(lv[0] == h);
                assert(lv.subrange(1, 1) =~= Seq::<Hittable>::empty());
            }
        },
        _ => {
            let lv = leaves(h);
            assert(lv =~= seq![h]);
            assert(lv[0] == h);
            assert(lv.subrange(1, 1) =~= Seq::<Hittable>::empty());
        },
    }
}


/// Concatenation distributes over the collected leaves, up to multiset.
proof fn lemma_loa_concat(a: Seq<Hittable>, b: Seq<Hittable>)
    ensures
        leaves_of_all(a + b).to_multiset() == leaves_of_all(a).to_multiset().add(
            leaves_of_all(b).to_multiset(),
        ),
    decreases a.len(),
{
    broadcast use vstd::multiset::group_multiset_axioms;

    if a.len() == 0 {
        assert(a + b =~= b);
        assert(leaves_of_all(a) =~= Seq::<Hittable>::empty());
        vstd::seq_lib::lemma_multiset_commutative(Seq::<Hittable>::empty(), leaves_of_all(b));
        assert(Seq::<Hittable>::empty() + leaves_of_all(b) =~= leaves_of_all(b));
        assert(leaves_of_all(a + b).to_multiset() =~= leaves_of_all(a).to_multiset().add(
            leaves_of_all(b).to_multiset(),
        ));
    } else {
        let rest = a.subrange(1, a.len() as int);
        lemma_loa_concat(rest, b);
        assert((a + b)[0] == a[0]);
        assert((a + b).subrange(1, (a + b).len() as int) =~= rest + b);
        assert(leaves_of_all(a + b) == leaves(a[0]) + leaves_of_all(rest + b));
        assert(leaves_of_all(a) == leaves(a[0]) + leaves_of_all(rest));
        vstd::seq_lib::lemma_multiset_commutative(leaves(a[0]), leaves_of_all(rest + b));
        vstd::seq_lib::lemma_multiset_commutative(leaves(a[0]), leaves_of_all(rest));
        assert(leaves_of_all(a + b).to_multiset() =~= leaves_of_all(a).to_multiset().add(
            leaves_of_all(b).to_multiset(),
        ));
    }
}

/// The leaves of member `k` can be split off from the collected leaves.
proof fn lemma_loa_extract(s: Seq<Hittable>, k: int)
    requires
        0 <= k < s.len(),
    ensures
        leaves_of_all(s).to_multiset() == leaves(s[k]).to_multiset().add(
            leaves_of_all(s.remove(k)).to_multiset(),
        ),
    decreases k,
{
    broadcast use vstd::multiset::group_multiset_axioms;

    let rest = s.subrange(1, s.len() as int);
    vstd::seq_lib::lemma_multiset_commutative(leaves(s[0]), leaves_of_all(rest));
    if k == 0 {
        assert(s.remove(0) =~= rest);
    } else {
        lemma_loa_extract(rest, k - 1);
        assert(rest[k - 1] == s[k]);
        assert(s.remove(k)[0] == s[0]);
        assert(s.remove(k).subrange(1, s.remove(k).len() as int) =~= rest.remove(k - 1));
        vstd::seq_lib::lemma_multiset_commutative(
            leaves(s[0]),
            leaves_of_all(rest.remove(k - 1)),
        );
        assert(leaves_of_all(s).to_multiset() =~= leaves(s[k]).to_multiset().add(
            leaves_of_all(s.remove(k)).to_multiset(),
        ));
    }
}

/// Rearranging a sequence rearranges its collected leaves: permutations of
/// the members leave the leaves' multiset unchanged.
proof fn lemma_loa_perm(s1: Seq<Hittable>, s2: Seq<Hittable>)
    requires
        s1.to_multiset() == s2.to_multiset(),
    ensures
        leaves_of_all(s1).to_multiset() == leaves_of_all(s2).to_multiset(),
    decreases s1.len(),
{
    broadcast use vstd::multiset::group_multiset_axioms;
    broadcast use vstd::seq_lib::group_to_multiset_ensures;

    if s1.len() == 0 {
        assert(s2.to_multiset().len() == 0);
        assert(s2.len() == 0);
    } else {
        let x = s1[0];
        let rest1 = s1.subrange(1, s1.len() as int);
        assert(s1.contains(x));
        assert(s1.to_multiset().count(x) > 0);
        assert(s2.to_multiset().count(x) > 0);
        assert(s2.contains(x));
        let k = choose|k: int| 0 <= k < s2.len() && s2[k] == x;
        assert(s1.remove(0) =~= rest1);
        assert(rest1.to_multiset() == s1.to_multiset().remove(x));
        assert(s2.remove(k).to_multiset() == s2.to_multiset().remove(x));
        lemma_loa_perm(rest1, s2.remove(k));
        lemma_loa_extract(s2, k);
        vstd::seq_lib::lemma_multiset_commutative(leaves(x), leaves_of_all(rest1));
        assert(leaves_of_all(s1).to_multiset() =~= leaves_of_all(s2).to_multiset());
    }
}

/// Order two objects by the lower bound of their boxes along an axis.
pub fn box_compare(a: &Hittable, b: &Hittable, axis_index: usize) -> (r: bool)
    ensures
        r == (box_key(*a, axis_index as int) < box_key(*b, axis_index as int)),
{
    a.bounding_box().axis(axis_index).min < b.bounding_box().axis(axis_index).min
}

/// Sort the objects by the lower bound of their boxes along an axis
/// (insertion sort; ties keep their order).
fn sort_by_box_min(objects: &mut Vec<Hittable>, axis: usize)
    ensures
        final(objects)@.len() == old(objects)@.len(),
        final(objects)@.to_multiset() == old(objects)@.to_multiset(),
        forall|a: int, b: int|
            0 <= a < b < final(objects)@.len() ==> #[trigger] box_key(final(objects)@[a], axis as int)
                <= #[trigger] box_key(final(objects)@[b], axis as int),
{
    broadcast use vstd::seq_lib::to_multiset_insert;
    broadcast use vstd::seq_lib::group_to_multiset_ensures;

    let n = objects.len();
    let mut i: usize = 1;
    while i < n && n >= 2
        invariant
            n == objects@.len(),
            n >= 2 ==> 1 <= i <= n,
            objects@.to_multiset() == old(objects)@.to_multiset(),
            forall|a: int, b: int|
                0 <= a < b < i ==> #[trigger] box_key(objects@[a], axis as int)
                    <= #[trigger] box_key(objects@[b], axis as int),
        decreases n - i,
    {
        let mut p: usize = 0;
        while p < i && !box_compare(&objects[i], &objects[p], axis)
            invariant
                n == objects@.len(),
                0 <= p <= i < n,
                forall|k: int|
                    0 <= k < p ==> #[trigger] box_key(objects@[k], axis as int) <= box_key(
                        objects@[i as int],
                        axis as int,
                    ),
            decreases i - p,
        {
            p = p + 1;
        }
        if p < i {
            let ghost pre = objects@;
            let x = objects.remove(i);
            let ghost mid = objects@;
            objects.insert(p, x);
            proof {
                let post = objects@;
                assert(mid == pre.remove(i as int));
                assert(post == mid.insert(p as int, x));
                assert(post.to_multiset() == pre.to_multiset()) by {
                    pre.to_multiset_ensures();
                    vstd::seq_lib::to_multiset_insert(mid, p as int, x);
                    assert(pre.contains(pre[i as int]));
                    assert(pre.to_multiset().count(pre[i as int]) > 0);
                    assert(post.to_multiset() =~= pre.to_multiset().remove(pre[i as int]).insert(
                        pre[i as int],
                    ));
                    assert(pre.to_multiset().remove(pre[i as int]).insert(pre[i as int])
                        =~= pre.to_multiset());
                }
                assert forall|a: int, b: int| 0 <= a < b < i + 1 implies #[trigger] box_key(
                    post[a],
                    axis as int,
                ) <= #[trigger] box_key(post[b], axis as int) by {
                    assert(forall|k: int| 0 <= k < p ==> post[k] == pre[k]);
                    assert(post[p as int] == x);
                    assert(forall|k: int| p < k <= i ==> post[k] == pre[k - 1]);
                    assert(box_key(pre[p as int], axis as int) > box_key(x, axis as int));
                }
            }
        }
        i = i + 1;
    }
}

/// Concatenating with the leaves of an empty aggregate changes nothing.
proof fn lemma_leaves_concat(la: Seq<Hittable>, lb: Seq<Hittable>)
    ensures
        forall|x: Hittable| #[trigger] (la + lb).contains(x) <==> la.contains(x) || lb.contains(
            x,
        ),
{
    assert forall|x: Hittable| #[trigger] (la + lb).contains(x) implies la.contains(x)
        || lb.contains(x) by {
        let j = choose|j: int| 0 <= j < (la + lb).len() && (la + lb)[j] == x;
        if j < la.len() {
            assert(la[j] == x);
        } else {
            assert(lb[j - la.len()] == x);
        }
    }
    assert forall|x: Hittable| la.contains(x) || lb.contains(x) implies #[trigger] (la
        + lb).contains(x) by {
        if la.contains(x) {
            let j = choose|j: int| 0 <= j < la.len() && la[j] == x;
            assert((la + lb)[j] == x);
        } else {
            let j = choose|j: int| 0 <= j < lb.len() && lb[j] == x;
            assert((la + lb)[j + la.len()] == x);
        }
    }
}

impl BVHNode {
    /// Traversal: reject if the node's box misses the ray; otherwise probe
    /// the left child over the current range and the right child over the
    /// range tightened to the left hit, so the right probe can only report
    /// something strictly closer.
    pub fn hit(&self, r: &Ray, ray_t: Interval, rng: &mut Rng) -> (res: Option<HitRecord>)
        ensures
            res == crate::hittable::bvh_hit_rng_spec(*self, *r, ray_t, old(rng)@).0,
            final(rng)@ == crate::hittable::bvh_hit_rng_spec(*self, *r, ray_t, old(rng)@).1,
            res matches Option::Some(rec) ==> ray_t.min <= rec.t <= ray_t.max,
            forall|n: int|
                #[trigger] wf(Hittable::Bvh(*self), n) ==> (res matches Option::Some(rec)
                    ==> rec.mat < n),
        decreases self, 0int,
    {
        if !self.bbox.hit(r, ray_t) {
            return Option::None;
        }
        proof {
            assert(forall|n: int|
                #[trigger] wf(Hittable::Bvh(*self), n) ==> wf(*self.left, n) && wf(
                    *self.right,
                    n,
                ));
        }
        let hit_left = self.left.hit(r, ray_t, rng);
        let upper = match hit_left {
            Option::Some(rec) => rec.t,
            Option::None => ray_t.max,
        };
        let hit_right = self.right.hit(r, Interval::new(ray_t.min, upper), rng);
        match hit_right {
            Option::Some(rec2) => Option::Some(rec2),
            Option::None => hit_left,
        }
    }

    /// Build an index over the members of an aggregate.
    pub fn new(list: HittableList, rng: &mut Rng) -> (node: BVHNode)
        requires
            list.objects@.len() >= 1,
        ensures
            forall|x: Hittable|
                #[trigger] leaves(Hittable::Bvh(node)).contains(x) <==> in_leaves(
                    x,
                    list.objects@,
                ),
            forall|n: int| #[trigger] all_wf(list.objects@, n) ==> wf(Hittable::Bvh(node), n),
            all_deterministic(list.objects@) ==> deterministic(Hittable::Bvh(node)),
            leaves(Hittable::Bvh(node)).to_multiset() == leaves_of_all(list.objects@).to_multiset(),
            node.bbox == crate::aabb::aabb_union_spec(
                crate::hittable::bounding_box_spec(*node.left),
                crate::hittable::bounding_box_spec(*node.right),
            ),
    {
        BVHNode::from_slice(list.objects, rng)
    }

    /// Recursively partition the objects: one object becomes a leaf node, two
    /// are ordered by comparing box minima along an axis chosen uniformly at
    /// random per node, and more are sorted along that axis and split at the
    /// midpoint. Each node's box is the union of its children's.
    #[verifier::rlimit(100)]
    pub fn from_slice(objects: Vec<Hittable>, rng: &mut Rng) -> (node: BVHNode)
        requires
            objects@.len() >= 1,
        ensures
            forall|x: Hittable|
                #[trigger] leaves(Hittable::Bvh(node)).contains(x) <==> in_leaves(x, objects@),
            forall|n: int| #[trigger] all_wf(objects@, n) ==> wf(Hittable::Bvh(node), n),
            all_deterministic(objects@) ==> deterministic(Hittable::Bvh(node)),
            leaves(Hittable::Bvh(node)).to_multiset() == leaves_of_all(objects@).to_multiset(),
            node.bbox == crate::aabb::aabb_union_spec(
                crate::hittable::bounding_box_spec(*node.left),
                crate::hittable::bounding_box_spec(*node.right),
            ),
            objects@.len() == 1 ==> *node.left == objects@[0] && ((*node.right) matches
                Hittable::List(l) && l.objects@.len() == 0),
            objects@.len() == 2 ==> {
                let axis = crate::rng::rng_draw(old(rng)@) % 2;
                if box_key(objects@[0], axis as int) < box_key(objects@[1], axis as int) {
                    *node.left == objects@[0] && *node.right == objects@[1]
                } else {
                    *node.left == objects@[1] && *node.right == objects@[0]
                }
            },
        decreases objects@.len(),
    {
        let ghost orig = objects@;
        let mut objects = objects;
        let axis = random_int_range(rng, 0, 2) as usize;
        let n = objects.len();
        if n == 1 {
            let left = objects.pop().unwrap();
            let node = BVHNode::build_leaf(left);
            proof {
                assert(orig[0] == left);
                assert forall|x: Hittable|
                    #[trigger] leaves(Hittable::Bvh(node)).contains(x) <==> in_leaves(
                    x,
                    orig,
                ) by {
                    if in_leaves(x, orig) {
                        let j = choose|j: int|
                            0 <= j < orig.len() && #[trigger] leaves(orig[j]).contains(x);
                        assert(j == 0);
                    }
                }
                assert forall|n2: int| #[trigger] all_wf(orig, n2) implies wf(
                    Hittable::Bvh(node),
                    n2,
                ) by {
                    lemma_all_wf_index(orig, n2, 0);
                }
                if all_deterministic(orig) {
                    lemma_all_deterministic_index(orig, 0);
                }
                assert(orig.subrange(1, 1) =~= Seq::<Hittable>::empty());
                assert(leaves_of_all(orig) == leaves(orig[0]) + leaves_of_all(orig.subrange(1, 1)));
                assert(leaves(orig[0]) + Seq::<Hittable>::empty() =~= leaves(orig[0]));
            }
            node
        } else if n == 2 {
            let o2 = objects.pop().unwrap();
            let o1 = objects.pop().unwrap();
            let node = BVHNode::build_pair(o1, o2, axis);
            proof {
                assert(orig[0] == o1 && orig[1] == o2);
                assert forall|x: Hittable|
                    #[trigger] leaves(Hittable::Bvh(node)).contains(x) <==> in_leaves(
                    x,
                    orig,
                ) by {
                    if in_leaves(x, orig) {
                        let j = choose|j: int|
                            0 <= j < orig.len() && #[trigger] leaves(orig[j]).contains(x);
                        assert(j == 0 || j == 1);
                    }
                }
                assert forall|n2: int| #[trigger] all_wf(orig, n2) implies wf(
                    Hittable::Bvh(node),
                    n2,
                ) by {
                    lemma_all_wf_index(orig, n2, 0);
                    lemma_all_wf_index(orig, n2, 1);
                }
                if all_deterministic(orig) {
                    lemma_all_deterministic_index(orig, 0);
                    lemma_all_deterministic_index(orig, 1);
                }
                broadcast use vstd::multiset::group_multiset_axioms;

                let tail = orig.subrange(1, 2);
                assert(tail[0] == o2);
                assert(tail.subrange(1, 1) =~= Seq::<Hittable>::empty());
                assert(leaves_of_all(tail) == leaves(o2) + leaves_of_all(tail.subrange(1, 1)));
                assert(leaves(o2) + Seq::<Hittable>::empty() =~= leaves(o2));
                assert(leaves_of_all(orig) == leaves(o1) + leaves_of_all(tail));
                assert(leaves(Hittable::Bvh(node)) == leaves(*node.left) + leaves(*node.right));
                vstd::seq_lib::lemma_seq_union_to_multiset_commutative(leaves(o1), leaves(o2));
            }
            node
        } else {
            sort_by_box_min(&mut objects, axis);
            let ghost sorted = objects@;
            let mid = n / 2;
            let right_vec = objects.split_off(mid);
            let ghost lo = objects@;
            let ghost hi = right_vec@;
            proof {
                assert(lo =~= sorted.subrange(0, mid as int));
                assert(hi =~= sorted.subrange(mid as int, sorted.len() as int));
            }
            let lnode = BVHNode::from_slice(objects, rng);
            let rnode = BVHNode::from_slice(right_vec, rng);
            let node = BVHNode::combine(Hittable::Bvh(lnode), Hittable::Bvh(rnode));
            proof {
                lemma_split_build(
                    orig,
                    sorted,
                    mid as int,
                    Hittable::Bvh(lnode),
                    Hittable::Bvh(rnode),
                );
                broadcast use vstd::multiset::group_multiset_axioms;

                lemma_loa_perm(sorted, orig);
                assert(sorted =~= lo + hi);
                lemma_loa_concat(lo, hi);
                let la = leaves(Hittable::Bvh(lnode));
                let lb2 = leaves(Hittable::Bvh(rnode));
                vstd::seq_lib::lemma_multiset_commutative(la, lb2);
                assert(leaves(Hittable::Bvh(node)).to_multiset() =~= leaves_of_all(
                    orig,
                ).to_multiset());
                assert(leaves(Hittable::Bvh(node)) == la + lb2);
                assert forall|x: Hittable|
                    #[trigger] leaves(Hittable::Bvh(node)).contains(x) <==> in_leaves(
                    x,
                    orig,
                ) by {
                    assert((la + lb2).contains(x) <==> in_leaves(x, orig));
                }
                assert forall|n2: int| #[trigger] all_wf(orig, n2) implies wf(
                    Hittable::Bvh(node),
                    n2,
                ) by {
                    assert(wf(Hittable::Bvh(lnode), n2) && wf(Hittable::Bvh(rnode), n2));
                }
            }
            node
        }
    }

    /// A degenerate node over a single object; the other child is an empty
    /// aggregate, which nothing can hit.
    fn build_leaf(left: Hittable) -> (node: BVHNode)
        ensures
            forall|x: Hittable|
                #[trigger] leaves(Hittable::Bvh(node)).contains(x) <==> leaves(left).contains(x),
            forall|n: int| wf(left, n) ==> #[trigger] wf(Hittable::Bvh(node), n),
            deterministic(left) ==> deterministic(Hittable::Bvh(node)),
            *node.left == left,
            (*node.right) matches Hittable::List(l) && l.objects@.len() == 0,
            leaves(Hittable::Bvh(node)) == leaves(left),
            node.bbox == crate::aabb::aabb_union_spec(
                crate::hittable::bounding_box_spec(*node.left),
                crate::hittable::bounding_box_spec(*node.right),
            ),
    {
        let lb = left.bounding_box();
        let el = HittableList::empty();
        let ghost elg = el;
        let right = Hittable::List(el);
        let rb = right.bounding_box();
        let node = BVHNode {
            left: Box::new(left),
            right: Box::new(right),
            bbox: Aabb::from_boxes(lb, rb),
        };
        proof {
            assert(right == Hittable::List(elg));
            assert(leaves(right) =~= Seq::<Hittable>::empty());
            assert(leaves(Hittable::Bvh(node)) =~= leaves(left));
            assert forall|n: int| wf(left, n) implies #[trigger] wf(Hittable::Bvh(node), n) by {
                assert(all_wf(elg.objects@, n));
                assert(wf(right, n));
            }
            assert(all_deterministic(elg.objects@));
            assert(deterministic(right));
        }
        node
    }

    /// A node over exactly two objects, ordered by their box minima along
    /// the chosen axis.
    fn build_pair(o1: Hittable, o2: Hittable, axis: usize) -> (node: BVHNode)
        ensures
            forall|x: Hittable|
                #[trigger] leaves(Hittable::Bvh(node)).contains(x) <==> (leaves(o1).contains(x)
                    || leaves(o2).contains(x)),
            forall|n: int| wf(o1, n) && wf(o2, n) ==> #[trigger] wf(Hittable::Bvh(node), n),
            deterministic(o1) && deterministic(o2) ==> deterministic(Hittable::Bvh(node)),
            if box_key(o1, axis as int) < box_key(o2, axis as int) {
                *node.left == o1 && *node.right == o2
            } else {
                *node.left == o2 && *node.right == o1
            },
            node.bbox == crate::aabb::aabb_union_spec(
                crate::hittable::bounding_box_spec(*node.left),
                crate::hittable::bounding_box_spec(*node.right),
            ),
    {
        let swap = box_compare(&o1, &o2, axis);
        let node = if swap {
            BVHNode::combine(o1, o2)
        } else {
            BVHNode::combine(o2, o1)
        };
        node
    }

    /// A node over the given children, its box their boxes' union.
    fn combine(left: Hittable, right: Hittable) -> (node: BVHNode)
        ensures
            *node.left == left,
            *node.right == right,
            node.bbox == crate::aabb::aabb_union_spec(
                crate::hittable::bounding_box_spec(left),
                crate::hittable::bounding_box_spec(right),
            ),
            forall|x: Hittable|
                #[trigger] leaves(Hittable::Bvh(node)).contains(x) <==> (leaves(left).contains(x)
                    || leaves(right).contains(x)),
            forall|n: int| wf(left, n) && wf(right, n) ==> #[trigger] wf(Hittable::Bvh(node), n),
            deterministic(left) && deterministic(right) ==> deterministic(Hittable::Bvh(node)),
    {
        let lb = left.bounding_box();
        let rb = right.bounding_box();
        let node = BVHNode {
            left: Box::new(left),
            right: Box::new(right),
            bbox: Aabb::from_boxes(lb, rb),
        };
        proof {
            lemma_leaves_concat(leaves(left), leaves(right));
        }
        node
    }
}
} // verus!
