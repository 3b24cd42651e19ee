//! Perlin gradient noise over a fixed lattice of random unit vectors.

use vstd::prelude::*;

use crate::fixed::FP_ONE;
use crate::fixed::emod;
use crate::fixed::fp_add;
use crate::fixed::fp_add_spec;
use crate::fixed::fp_floor;
use crate::fixed::fp_frac;
use crate::fixed::fp_mul;
use crate::fixed::fp_mul_spec;
use crate::fixed::fp_sub;
use crate::fixed::fp_sub_spec;
use crate::fixed::iabs;
use crate::rng::Rng;
use crate::rng::random_int_range;
use crate::vec3::Vec3;
use crate::vec3::dot_spec;
use crate::vec3::random_vector_range;
use crate::vec3::unit_vector;
use crate::vec3::vec_scale_spec;

verus! {

/// The size of the gradient and permutation tables.
pub const POINT_COUNT: usize = 256;

/// A permutation table: full length with every entry a valid lattice index.
pub open spec fn perm_wf(p: Seq<usize>) -> bool {
    &&& p.len() == POINT_COUNT
    &&& forall|i: int| 0 <= i < p.len() ==> p[i] < POINT_COUNT
}

/// A lattice of random gradient vectors and one permutation per axis.
pub struct Perlin {
    pub ranvec: Vec<Vec3>,
    pub perm_x: Vec<usize>,
    pub perm_y: Vec<usize>,
    pub perm_z: Vec<usize>,
}

/// The tables have their full size and hold valid lattice indices.
pub open spec fn perlin_wf(p: Perlin) -> bool {
    &&& p.ranvec@.len() == POINT_COUNT
    &&& perm_wf(p.perm_x@)
    &&& perm_wf(p.perm_y@)
    &&& perm_wf(p.perm_z@)
}

/// The gradient at lattice corner `(i + di, j + dj, k + dk)`: the three
/// per-axis permutations are combined by exclusive or into a table index.
pub open spec fn corner_spec(p: Perlin, i: int, j: int, k: int, di: int, dj: int, dk: int) -> Vec3 {
    let xi = p.perm_x@[(i + di) % 256];
    let yj = p.perm_y@[(j + dj) % 256];
    let zk = p.perm_z@[(k + dk) % 256];
    p.ranvec@[(xi ^ yj ^ zk) as int]
}

/// One corner's contribution to the trilinear Hermite interpolation: the
/// faded weight along each axis times the gradient's dot product with the
/// offset from the corner.
pub open spec fn interp_term_spec(
    c: Vec3,
    u: int,
    v: int,
    w: int,
    uu: int,
    vv: int,
    ww: int,
    di: int,
    dj: int,
    dk: int,
) -> int {
    let fa = if di == 1 {
        uu
    } else {
        fp_sub_spec(FP_ONE as int, u)
    };
    let fb = if dj == 1 {
        vv
    } else {
        fp_sub_spec(FP_ONE as int, v)
    };
    let fc = if dk == 1 {
        ww
    } else {
        fp_sub_spec(FP_ONE as int, w)
    };
    let weight = Vec3 {
        x: fp_sub_spec(u, di * FP_ONE as int) as i64,
        y: fp_sub_spec(v, dj * FP_ONE as int) as i64,
        z: fp_sub_spec(w, dk * FP_ONE as int) as i64,
    };
    fp_mul_spec(fp_mul_spec(fp_mul_spec(fa, fb), fc), dot_spec(c, weight))
}

/// The fade polynomial `t * t * (3 - 2 t)`.
pub open spec fn fade_spec(t: int) -> int {
    fp_mul_spec(fp_mul_spec(t, t), fp_sub_spec(3 * FP_ONE as int, fp_mul_spec(2 * FP_ONE as int, t)))
}

/// The noise value at a point: fractional offsets within the lattice cell,
/// Hermite-faded weights, and the sum of the eight corners' contributions.
pub open spec fn noise_spec(p: Perlin, pt: Vec3) -> int {
    let u = (pt.x as int) % (FP_ONE as int);
    let v = (pt.y as int) % (FP_ONE as int);
    let w = (pt.z as int) % (FP_ONE as int);
    let i = (pt.x as int) / (FP_ONE as int);
    let j = (pt.y as int) / (FP_ONE as int);
    let k = (pt.z as int) / (FP_ONE as int);
    let uu = fade_spec(u);
    let vv = fade_spec(v);
    let ww = fade_spec(w);
    let t000 = interp_term_spec(corner_spec(p, i, j, k, 0, 0, 0), u, v, w, uu, vv, ww, 0, 0, 0);
    let t001 = interp_term_spec(corner_spec(p, i, j, k, 0, 0, 1), u, v, w, uu, vv, ww, 0, 0, 1);
    let t010 = interp_term_spec(corner_spec(p, i, j, k, 0, 1, 0), u, v, w, uu, vv, ww, 0, 1, 0);
    let t011 = interp_term_spec(corner_spec(p, i, j, k, 0, 1, 1), u, v, w, uu, vv, ww, 0, 1, 1);
    let t100 = interp_term_spec(corner_spec(p, i, j, k, 1, 0, 0), u, v, w, uu, vv, ww, 1, 0, 0);
    let t101 = interp_term_spec(corner_spec(p, i, j, k, 1, 0, 1), u, v, w, uu, vv, ww, 1, 0, 1);
    let t110 = interp_term_spec(corner_spec(p, i, j, k, 1, 1, 0), u, v, w, uu, vv, ww, 1, 1, 0);
    let t111 = interp_term_spec(corner_spec(p, i, j, k, 1, 1, 1), u, v, w, uu, vv, ww, 1, 1, 1);
    fp_add_spec(
        fp_add_spec(
            fp_add_spec(
                fp_add_spec(
                    fp_add_spec(fp_add_spec(fp_add_spec(t000, t001), t010), t011),
                    t100,
                ),
                t101,
            ),
            t110,
        ),
        t111,
    )
}

/// One round of turbulence: accumulate the weighted noise, halve the weight
/// and double the point, for `depth` rounds.
pub open spec fn turb_loop_spec(p: Perlin, pt: Vec3, depth: nat, weight: i64, accum: int) -> int
    decreases depth,
{
    if depth == 0 {
        accum
    } else {
        turb_loop_spec(
            p,
            vec_scale_spec(pt, (2 * FP_ONE) as i64),
            (depth - 1) as nat,
            fp_mul_spec(weight as int, 32768) as i64,
            fp_add_spec(accum, fp_mul_spec(weight as int, noise_spec(p, pt))),
        )
    }
}

/// Turbulence: the magnitude of `depth` octaves of noise summed with
/// halving weights and doubling frequency.
pub open spec fn turb_spec(p: Perlin, pt: Vec3, depth: nat) -> int {
    crate::fixed::sat64(iabs(turb_loop_spec(p, pt, depth, FP_ONE, 0)))
}

/// Decide whether one permutation table is well-formed.
fn check_perm_wf(p: &Vec<usize>) -> (r: bool)
    ensures
        r == perm_wf(p@),
{
    if p.len() != POINT_COUNT {
        return false;
    }
    let mut i: usize = 0;
    while i < POINT_COUNT
        invariant
            p@.len() == POINT_COUNT,
            i <= POINT_COUNT,
            forall|k: int| 0 <= k < i ==> p@[k] < POINT_COUNT,
        decreases POINT_COUNT - i,
    {
        if p[i] >= POINT_COUNT {
            return false;
        }
        i = i + 1;
    }
    true
}

/// The identity table: entry `k` holds `k`.
pub open spec fn identity_perm() -> Seq<usize> {
    Seq::new(POINT_COUNT as nat, |k: int| k as usize)
}

/// Decide whether the noise tables are well-formed, so unverified callers
/// can establish it.
pub fn check_perlin_wf(p: &Perlin) -> (r: bool)
    ensures
        r == perlin_wf(*p),
{
    p.ranvec.len() == POINT_COUNT && check_perm_wf(&p.perm_x) && check_perm_wf(&p.perm_y)
        && check_perm_wf(&p.perm_z)
}

impl Perlin {
    /// Fresh random gradients and one fresh random permutation per axis.
    pub fn new(rng: &mut Rng) -> (r: Perlin)
        ensures
            perlin_wf(r),
            r.perm_x@.to_multiset() == identity_perm().to_multiset(),
            r.perm_y@.to_multiset() == identity_perm().to_multiset(),
            r.perm_z@.to_multiset() == identity_perm().to_multiset(),
    {
        let mut ranvec: Vec<Vec3> = Vec::new();
        let mut i: usize = 0;
        while i < POINT_COUNT
            invariant
                ranvec@.len() == i,
                i <= POINT_COUNT,
            decreases POINT_COUNT - i,
        {
            ranvec.push(unit_vector(random_vector_range(rng, -FP_ONE, FP_ONE)));
            i = i + 1;
        }
        Perlin {
            ranvec,
            perm_x: Perlin::perlin_generate_perm(rng),
            perm_y: Perlin::perlin_generate_perm(rng),
            perm_z: Perlin::perlin_generate_perm(rng),
        }
    }

    /// The identity table shuffled in place: a permutation of `0 .. 255`.
    pub fn perlin_generate_perm(rng: &mut Rng) -> (p: Vec<usize>)
        ensures
            perm_wf(p@),
            p@.to_multiset() == identity_perm().to_multiset(),
    {
        let mut p: Vec<usize> = Vec::new();
        let mut i: usize = 0;
        while i < POINT_COUNT
            invariant
                i <= POINT_COUNT,
                p@ == Seq::new(i as nat, |k: int| k as usize),
            decreases POINT_COUNT - i,
        {
            p.push(i);
            proof {
                assert(p@ =~= Seq::new((i + 1) as nat, |k: int| k as usize));
            }
            i = i + 1;
        }
        proof {
            assert(p@ == identity_perm());
            assert(forall|k: int| 0 <= k < p@.len() ==> p@[k] < POINT_COUNT);
        }
        Perlin::permute(&mut p, POINT_COUNT, rng);
        p
    }

    /// Fisher-Yates: swap each position downward with a random earlier one;
    /// the table keeps exactly its entries, rearranged.
    #[verifier::rlimit(100)]
    fn permute(p: &mut Vec<usize>, n: usize, rng: &mut Rng)
        requires
            old(p)@.len() == n,
            n == POINT_COUNT,
            forall|k: int| 0 <= k < old(p)@.len() ==> old(p)@[k] < POINT_COUNT,
        ensures
            final(p)@.len() == n,
            forall|k: int| 0 <= k < final(p)@.len() ==> final(p)@[k] < POINT_COUNT,
            final(p)@.to_multiset() == old(p)@.to_multiset(),
    {
        let mut i: usize = n - 1;
        while i >= 1
            invariant
                p@.len() == n,
                n == POINT_COUNT,
                i < n,
                forall|k: int| 0 <= k < p@.len() ==> p@[k] < POINT_COUNT,
                p@.to_multiset() == old(p)@.to_multiset(),
            decreases i,
        {
            let target = random_int_range(rng, 0, i as i32) as usize;
            let ghost pre = p@;
            let a = p[i];
            let b = p[target];
            p[i] = b;
            let ghost mid = p@;
            p[target] = a;
            proof {
                broadcast use vstd::multiset::group_multiset_axioms;

                assert(mid == pre.update(i as int, b));
                assert(p@ == mid.update(target as int, a));
                assert(mid[target as int] == b);
                pre.to_multiset_ensures();
                mid.to_multiset_ensures();
                vstd::seq_lib::to_multiset_update(pre, i as int, b);
                vstd::seq_lib::to_multiset_update(mid, target as int, a);
                assert(pre.contains(pre[i as int]));
                assert(pre.to_multiset().count(a) > 0);
                assert(mid.to_multiset() == pre.to_multiset().insert(b).remove(a));
                assert(mid.to_multiset().count(b) > 0) by {
                    assert(mid.contains(mid[target as int]));
                }
                assert(p@.to_multiset() == mid.to_multiset().insert(a).remove(b));
                assert(p@.to_multiset() =~= pre.to_multiset());
            }
            i = i - 1;
        }
    }

    /// The gradient at a lattice corner.
    fn corner(&self, i: i64, j: i64, k: i64, di: i64, dj: i64, dk: i64) -> (r: Vec3)
        requires
            perlin_wf(*self),
            iabs(i as int) <= 0x1_0000_0000_0000,
            iabs(j as int) <= 0x1_0000_0000_0000,
            iabs(k as int) <= 0x1_0000_0000_0000,
            0 <= di <= 1 && 0 <= dj <= 1 && 0 <= dk <= 1,
        ensures
            r == corner_spec(*self, i as int, j as int, k as int, di as int, dj as int, dk as int),
    {
        let ix = emod(i + di, 256) as usize;
        let jy = emod(j + dj, 256) as usize;
        let kz = emod(k + dk, 256) as usize;
        let a = self.perm_x[ix];
        let b = self.perm_y[jy];
        let c = self.perm_z[kz];
        proof {
            assert((a as u16) < 256 && (b as u16) < 256 && (c as u16) < 256 ==> ((a as u16) ^ (
            b as u16) ^ (c as u16)) < 256) by (bit_vector);
            assert((a ^ b ^ c) as u16 == (a as u16) ^ (b as u16) ^ (c as u16));
        }
        self.ranvec[(a ^ b) ^ c]
    }

    /// The noise value at a point.
    pub fn noise(&self, pt: Vec3) -> (r: i64)
        requires
            perlin_wf(*self),
        ensures
            r as int == noise_spec(*self, pt),
    {
        let u = fp_frac(pt.x);
        let v = fp_frac(pt.y);
        let w = fp_frac(pt.z);
        let i = fp_floor(pt.x);
        let j = fp_floor(pt.y);
        let k = fp_floor(pt.z);
        let uu = fp_mul(fp_mul(u, u), fp_sub(3 * FP_ONE, fp_mul(2 * FP_ONE, u)));
        let vv = fp_mul(fp_mul(v, v), fp_sub(3 * FP_ONE, fp_mul(2 * FP_ONE, v)));
        let ww = fp_mul(fp_mul(w, w), fp_sub(3 * FP_ONE, fp_mul(2 * FP_ONE, w)));
        proof {
            vstd::arithmetic::div_mod::lemma_div_is_ordered(
                i64::MIN as int,
                pt.x as int,
                FP_ONE as int,
            );
            vstd::arithmetic::div_mod::lemma_div_is_ordered(
                pt.x as int,
                i64::MAX as int,
                FP_ONE as int,
            );
            vstd::arithmetic::div_mod::lemma_div_is_ordered(
                i64::MIN as int,
                pt.y as int,
                FP_ONE as int,
            );
            vstd::arithmetic::div_mod::lemma_div_is_ordered(
                pt.y as int,
                i64::MAX as int,
                FP_ONE as int,
            );
            vstd::arithmetic::div_mod::lemma_div_is_ordered(
                i64::MIN as int,
                pt.z as int,
                FP_ONE as int,
            );
            vstd::arithmetic::div_mod::lemma_div_is_ordered(
                pt.z as int,
                i64::MAX as int,
                FP_ONE as int,
            );
        }
        let mut accum: i64 = 0;
        let t000 = Perlin::interp_term(self.corner(i, j, k, 0, 0, 0), u, v, w, uu, vv, ww, 0, 0, 0);
        let t001 = Perlin::interp_term(self.corner(i, j, k, 0, 0, 1), u, v, w, uu, vv, ww, 0, 0, 1);
        let t010 = Perlin::interp_term(self.corner(i, j, k, 0, 1, 0), u, v, w, uu, vv, ww, 0, 1, 0);
        let t011 = Perlin::interp_term(self.corner(i, j, k, 0, 1, 1), u, v, w, uu, vv, ww, 0, 1, 1);
        let t100 = Perlin::interp_term(self.corner(i, j, k, 1, 0, 0), u, v, w, uu, vv, ww, 1, 0, 0);
        let t101 = Perlin::interp_term(self.corner(i, j, k, 1, 0, 1), u, v, w, uu, vv, ww, 1, 0, 1);
        let t110 = Perlin::interp_term(self.corner(i, j, k, 1, 1, 0), u, v, w, uu, vv, ww, 1, 1, 0);
        let t111 = Perlin::interp_term(self.corner(i, j, k, 1, 1, 1), u, v, w, uu, vv, ww, 1, 1, 1);
        accum = fp_add(accum, t000);
        accum = fp_add(accum, t001);
        accum = fp_add(accum, t010);
        accum = fp_add(accum, t011);
        accum = fp_add(accum, t100);
        accum = fp_add(accum, t101);
        accum = fp_add(accum, t110);
        accum = fp_add(accum, t111);
        proof {
            assert(fp_add_spec(0, t000 as int) == t000 as int);
        }
        accum
    }

    /// One corner's contribution to the trilinear Hermite interpolation.
    fn interp_term(
        c: Vec3,
        u: i64,
        v: i64,
        w: i64,
        uu: i64,
        vv: i64,
        ww: i64,
        di: i64,
        dj: i64,
        dk: i64,
    ) -> (r: i64)
        requires
            0 <= di <= 1 && 0 <= dj <= 1 && 0 <= dk <= 1,
        ensures
            r as int == interp_term_spec(
                c,
                u as int,
                v as int,
                w as int,
                uu as int,
                vv as int,
                ww as int,
                di as int,
                dj as int,
                dk as int,
            ),
    {
        let fa = if di == 1 {
            uu
        } else {
            fp_sub(FP_ONE, u)
        };
        let fb = if dj == 1 {
            vv
        } else {
            fp_sub(FP_ONE, v)
        };
        let fc = if dk == 1 {
            ww
        } else {
            fp_sub(FP_ONE, w)
        };
        let weight = Vec3 {
            x: fp_sub(u, di * FP_ONE),
            y: fp_sub(v, dj * FP_ONE),
            z: fp_sub(w, dk * FP_ONE),
        };
        fp_mul(fp_mul(fp_mul(fa, fb), fc), c.dot(weight))
    }

    /// Turbulence: `depth` octaves of noise with halving weights and
    /// doubling frequency, as a magnitude.
    pub fn turb(&self, pt: Vec3, depth: u32) -> (r: i64)
        requires
            perlin_wf(*self),
        ensures
            r as int == turb_spec(*self, pt, depth as nat),
            r >= 0,
    {
        let mut accum: i64 = 0;
        let mut temp_p = pt;
        let mut weight: i64 = FP_ONE;
        let mut rounds: u32 = depth;
        while rounds > 0
            invariant
                perlin_wf(*self),
                turb_loop_spec(*self, pt, depth as nat, FP_ONE, 0) == turb_loop_spec(
                    *self,
                    temp_p,
                    rounds as nat,
                    weight,
                    accum as int,
                ),
            decreases rounds,
        {
            accum = fp_add(accum, fp_mul(weight, self.noise(temp_p)));
            weight = fp_mul(weight, 32768);
            temp_p = temp_p.scale(2 * FP_ONE);
            rounds = rounds - 1;
        }
        if accum < 0 {
            crate::fixed::fp_neg(accum)
        } else {
            accum
        }
    }
}

} // verus!
