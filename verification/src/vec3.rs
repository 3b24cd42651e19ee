//! Three-component fixed-point vectors and the sampling helpers built on them.

use vstd::prelude::*;

use crate::fixed::FP_ONE;
use crate::fixed::fp_add;
use crate::fixed::fp_add_spec;
use crate::fixed::fp_div;
use crate::fixed::fp_div_spec;
use crate::fixed::fp_mul;
use crate::fixed::fp_mul_spec;
use crate::fixed::fp_neg;
use crate::fixed::fp_neg_spec;
use crate::fixed::fp_sqrt;
use crate::fixed::fp_sqrt_spec;
use crate::fixed::fp_sub;
use crate::fixed::fp_sub_spec;
use crate::fixed::iabs;
use crate::fixed::tdiv;
use crate::rng::Rng;
use crate::rng::rng_range_spec;
use crate::rng::rng_step;

verus! {

/// A point, direction, or color with fixed-point components.
#[derive(Clone, Copy, Debug, PartialEq, Eq, Structural)]
pub struct Vec3 {
    pub x: i64,
    pub y: i64,
    pub z: i64,
}

/// Componentwise product, the operation colors are combined with.
pub trait Mul: Sized {
    /// The componentwise product as a mathematical value.
    spec fn mul_spec(self, rhs: Self) -> Self;

    /// Multiply componentwise.
    fn mul(self, rhs: Self) -> (r: Self)
        ensures
            r == self.mul_spec(rhs),
    ;
}

pub open spec fn vec_add_spec(a: Vec3, b: Vec3) -> Vec3 {
    Vec3 {
        x: fp_add_spec(a.x as int, b.x as int) as i64,
        y: fp_add_spec(a.y as int, b.y as int) as i64,
        z: fp_add_spec(a.z as int, b.z as int) as i64,
    }
}

pub open spec fn vec_sub_spec(a: Vec3, b: Vec3) -> Vec3 {
    Vec3 {
        x: fp_sub_spec(a.x as int, b.x as int) as i64,
        y: fp_sub_spec(a.y as int, b.y as int) as i64,
        z: fp_sub_spec(a.z as int, b.z as int) as i64,
    }
}

pub open spec fn vec_neg_spec(a: Vec3) -> Vec3 {
    Vec3 {
        x: fp_neg_spec(a.x as int) as i64,
        y: fp_neg_spec(a.y as int) as i64,
        z: fp_neg_spec(a.z as int) as i64,
    }
}

pub open spec fn vec_scale_spec(a: Vec3, t: i64) -> Vec3 {
    Vec3 {
        x: fp_mul_spec(a.x as int, t as int) as i64,
        y: fp_mul_spec(a.y as int, t as int) as i64,
        z: fp_mul_spec(a.z as int, t as int) as i64,
    }
}

/// Componentwise division by a scalar.
pub open spec fn vec_div_spec(a: Vec3, t: i64) -> Vec3 {
    Vec3 {
        x: fp_div_spec(a.x as int, t as int) as i64,
        y: fp_div_spec(a.y as int, t as int) as i64,
        z: fp_div_spec(a.z as int, t as int) as i64,
    }
}

pub open spec fn vec_mul_spec(a: Vec3, b: Vec3) -> Vec3 {
    Vec3 {
        x: fp_mul_spec(a.x as int, b.x as int) as i64,
        y: fp_mul_spec(a.y as int, b.y as int) as i64,
        z: fp_mul_spec(a.z as int, b.z as int) as i64,
    }
}

/// The inner product `a . b` in the saturating fixed-point model.
pub open spec fn dot_spec(a: Vec3, b: Vec3) -> int {
    fp_add_spec(
        fp_add_spec(fp_mul_spec(a.x as int, b.x as int), fp_mul_spec(a.y as int, b.y as int)),
        fp_mul_spec(a.z as int, b.z as int),
    )
}

/// The squared length `a . a`.
pub open spec fn norm2_spec(a: Vec3) -> int {
    dot_spec(a, a)
}

pub open spec fn cross_spec(a: Vec3, b: Vec3) -> Vec3 {
    Vec3 {
        x: fp_sub_spec(fp_mul_spec(a.y as int, b.z as int), fp_mul_spec(a.z as int, b.y as int))
            as i64,
        y: fp_sub_spec(fp_mul_spec(a.z as int, b.x as int), fp_mul_spec(a.x as int, b.z as int))
            as i64,
        z: fp_sub_spec(fp_mul_spec(a.x as int, b.y as int), fp_mul_spec(a.y as int, b.x as int))
            as i64,
    }
}

/// A square in the fixed-point model is never negative.
pub proof fn lemma_fp_square_nonneg(x: int)
    ensures
        fp_mul_spec(x, x) >= 0,
{
    assert(x * x >= 0) by (nonlinear_arith);
    assert(tdiv(x * x, FP_ONE as int) >= 0) by {
        vstd::arithmetic::div_mod::lemma_div_pos_is_pos(iabs(x * x), FP_ONE as int);
    }
}

/// Squared lengths are never negative, so their square root is defined.
pub proof fn lemma_norm2_nonneg(a: Vec3)
    ensures
        norm2_spec(a) >= 0,
{
    lemma_fp_square_nonneg(a.x as int);
    lemma_fp_square_nonneg(a.y as int);
    lemma_fp_square_nonneg(a.z as int);
}

/// The vector rescaled to unit length: each component divided by the length.
/// A zero vector maps to the zero vector, since the quotient `0 / 0` is zero.
pub open spec fn unit_spec(v: Vec3) -> Vec3 {
    let len = fp_sqrt_spec(norm2_spec(v));
    Vec3 {
        x: fp_div_spec(v.x as int, len) as i64,
        y: fp_div_spec(v.y as int, len) as i64,
        z: fp_div_spec(v.z as int, len) as i64,
    }
}

/// `v` reflected about the unit normal `n`: `v - 2 (v . n) n`.
pub open spec fn reflect_spec(v: Vec3, n: Vec3) -> Vec3 {
    vec_sub_spec(v, vec_scale_spec(n, fp_mul_spec(dot_spec(v, n), 2 * FP_ONE as int) as i64))
}

/// Snell refraction of the unit direction `uv` at the unit normal `n` with
/// relative index `etai_over_etat`: the perpendicular part is
/// `(uv + n cos) * ratio` and the parallel part `-sqrt(|1 - |perp|^2|) n`.
pub open spec fn refract_spec(uv: Vec3, n: Vec3, etai_over_etat: i64) -> Vec3 {
    let cos_theta = if dot_spec(vec_neg_spec(uv), n) > FP_ONE as int {
        FP_ONE as int
    } else {
        dot_spec(vec_neg_spec(uv), n)
    };
    let r_out_perp = vec_scale_spec(
        vec_add_spec(uv, vec_scale_spec(n, cos_theta as i64)),
        etai_over_etat,
    );
    let r_out_parallel = vec_scale_spec(
        n,
        fp_neg_spec(fp_sqrt_spec(iabs(fp_sub_spec(FP_ONE as int, norm2_spec(r_out_perp)))))
            as i64,
    );
    vec_add_spec(r_out_perp, r_out_parallel)
}

/// True when every component is zero at the fixed-point resolution.
pub open spec fn near_zero_spec(v: Vec3) -> bool {
    iabs(v.x as int) < 1 && iabs(v.y as int) < 1 && iabs(v.z as int) < 1
}

impl Vec3 {
    pub fn new(x: i64, y: i64, z: i64) -> (r: Vec3)
        ensures
            r == (Vec3 { x, y, z }),
    {
        Vec3 { x, y, z }
    }

    pub fn plus(self, rhs: Vec3) -> (r: Vec3)
        ensures
            r == vec_add_spec(self, rhs),
    {
        Vec3 { x: fp_add(self.x, rhs.x), y: fp_add(self.y, rhs.y), z: fp_add(self.z, rhs.z) }
    }

    pub fn minus(self, rhs: Vec3) -> (r: Vec3)
        ensures
            r == vec_sub_spec(self, rhs),
    {
        Vec3 { x: fp_sub(self.x, rhs.x), y: fp_sub(self.y, rhs.y), z: fp_sub(self.z, rhs.z) }
    }

    pub fn negate(self) -> (r: Vec3)
        ensures
            r == vec_neg_spec(self),
    {
        Vec3 { x: fp_neg(self.x), y: fp_neg(self.y), z: fp_neg(self.z) }
    }

    pub fn scale(self, t: i64) -> (r: Vec3)
        ensures
            r == vec_scale_spec(self, t),
    {
        Vec3 { x: fp_mul(self.x, t), y: fp_mul(self.y, t), z: fp_mul(self.z, t) }
    }

    pub fn divide(self, t: i64) -> (r: Vec3)
        ensures
            r == vec_div_spec(self, t),
    {
        Vec3 { x: fp_div(self.x, t), y: fp_div(self.y, t), z: fp_div(self.z, t) }
    }

    pub fn dot(self, rhs: Vec3) -> (r: i64)
        ensures
            r as int == dot_spec(self, rhs),
    {
        fp_add(fp_add(fp_mul(self.x, rhs.x), fp_mul(self.y, rhs.y)), fp_mul(self.z, rhs.z))
    }

    pub fn norm2(self) -> (r: i64)
        ensures
            r as int == norm2_spec(self),
            r >= 0,
    {
        proof {
            lemma_norm2_nonneg(self);
        }
        self.dot(self)
    }

    pub fn cross(self, rhs: Vec3) -> (r: Vec3)
        ensures
            r == cross_spec(self, rhs),
    {
        Vec3 {
            x: fp_sub(fp_mul(self.y, rhs.z), fp_mul(self.z, rhs.y)),
            y: fp_sub(fp_mul(self.z, rhs.x), fp_mul(self.x, rhs.z)),
            z: fp_sub(fp_mul(self.x, rhs.y), fp_mul(self.y, rhs.x)),
        }
    }
}

impl Mul for Vec3 {
    open spec fn mul_spec(self, rhs: Vec3) -> Vec3 {
        vec_mul_spec(self, rhs)
    }

    fn mul(self, rhs: Vec3) -> (r: Vec3) {
        Vec3 { x: fp_mul(self.x, rhs.x), y: fp_mul(self.y, rhs.y), z: fp_mul(self.z, rhs.z) }
    }
}

/// A vector from a plain component triple.
pub fn vec_from_tuple(tuple: (i64, i64, i64)) -> (r: Vec3)
    ensures
        r == (Vec3 { x: tuple.0, y: tuple.1, z: tuple.2 }),
{
    Vec3 { x: tuple.0, y: tuple.1, z: tuple.2 }
}

/// The vector rescaled to unit length.
pub fn unit_vector(vector: Vec3) -> (r: Vec3)
    ensures
        r == unit_spec(vector),
{
    let len = fp_sqrt(vector.norm2());
    Vec3 { x: fp_div(vector.x, len), y: fp_div(vector.y, len), z: fp_div(vector.z, len) }
}

/// True when the vector is zero in all dimensions at the model's resolution.
pub fn near_zero(v: Vec3) -> (r: bool)
    ensures
        r == near_zero_spec(v),
{
    let s: i64 = 1;
    let ax = if v.x < 0 { fp_neg(v.x) } else { v.x };
    let ay = if v.y < 0 { fp_neg(v.y) } else { v.y };
    let az = if v.z < 0 { fp_neg(v.z) } else { v.z };
    ax < s && ay < s && az < s
}

/// Reflect `v` about the unit normal `n`.
pub fn reflect(v: Vec3, n: Vec3) -> (r: Vec3)
    ensures
        r == reflect_spec(v, n),
{
    v.minus(n.scale(fp_mul(v.dot(n), 2 * FP_ONE)))
}

/// Refract the unit direction `uv` at the unit normal `n` by Snell's law.
pub fn refract(uv: Vec3, n: Vec3, etai_over_etat: i64) -> (r: Vec3)
    ensures
        r == refract_spec(uv, n, etai_over_etat),
{
    let d = uv.negate().dot(n);
    let cos_theta = if d > FP_ONE {
        FP_ONE
    } else {
        d
    };
    let r_out_perp = uv.plus(n.scale(cos_theta)).scale(etai_over_etat);
    let inner = fp_sub(FP_ONE, r_out_perp.norm2());
    let mag = if inner < 0 {
        fp_neg(inner)
    } else {
        inner
    };
    let r_out_parallel = n.scale(fp_neg(fp_sqrt(mag)));
    r_out_perp.plus(r_out_parallel)
}

/// One uniformly drawn vector with components in `[0, 1)`, drawn
/// component by component.
pub open spec fn random_vector_spec(s: u64) -> Vec3 {
    Vec3 {
        x: rng_range_spec(s, 0, FP_ONE) as i64,
        y: rng_range_spec(rng_step(s), 0, FP_ONE) as i64,
        z: rng_range_spec(rng_step(rng_step(s)), 0, FP_ONE) as i64,
    }
}

/// One uniformly drawn vector with components in `[min, max)`.
pub open spec fn random_vector_range_spec(s: u64, min: i64, max: i64) -> Vec3 {
    Vec3 {
        x: rng_range_spec(s, min, max) as i64,
        y: rng_range_spec(rng_step(s), min, max) as i64,
        z: rng_range_spec(rng_step(rng_step(s)), min, max) as i64,
    }
}

/// A vector with three uniform components in `[0, 1)`.
pub fn random_vector(rng: &mut Rng) -> (r: Vec3)
    ensures
        r == random_vector_spec(old(rng)@),
        final(rng)@ == rng_step(rng_step(rng_step(old(rng)@))),
{
    let x = crate::rng::random_range(rng, 0, FP_ONE);
    let y = crate::rng::random_range(rng, 0, FP_ONE);
    let z = crate::rng::random_range(rng, 0, FP_ONE);
    Vec3 { x, y, z }
}

/// A vector with three uniform components in `[min, max)`.
pub fn random_vector_range(rng: &mut Rng, min: i64, max: i64) -> (r: Vec3)
    ensures
        r == random_vector_range_spec(old(rng)@, min, max),
        final(rng)@ == rng_step(rng_step(rng_step(old(rng)@))),
{
    let x = crate::rng::random_range(rng, min, max);
    let y = crate::rng::random_range(rng, min, max);
    let z = crate::rng::random_range(rng, min, max);
    Vec3 { x, y, z }
}

/// How many rejection-sampling rounds the ball and disk samplers attempt
/// before falling back to the zero vector.
pub const SAMPLE_TRIES: u32 = 64;

/// Rejection sampling in the unit ball: draw a vector in `[-1, 1)^3` and keep
/// it if it falls strictly inside the unit sphere, for at most `fuel` rounds.
pub open spec fn sample_in_ball_spec(s: u64, fuel: nat) -> (Vec3, u64)
    decreases fuel,
{
    if fuel == 0 {
        (Vec3 { x: 0, y: 0, z: 0 }, s)
    } else {
        let p = random_vector_range_spec(s, (-FP_ONE) as i64, FP_ONE);
        let s3 = rng_step(rng_step(rng_step(s)));
        if norm2_spec(p) < FP_ONE as int {
            (p, s3)
        } else {
            sample_in_ball_spec(s3, (fuel - 1) as nat)
        }
    }
}

fn sample_in_ball(rng: &mut Rng, fuel: u32) -> (r: Vec3)
    ensures
        r == sample_in_ball_spec(old(rng)@, fuel as nat).0,
        final(rng)@ == sample_in_ball_spec(old(rng)@, fuel as nat).1,
        norm2_spec(r) < FP_ONE as int,
    decreases fuel,
{
    if fuel == 0 {
        proof {
            lemma_norm2_nonneg(Vec3 { x: 0, y: 0, z: 0 });
            crate::fixed::lemma_isqrt_exists(0);
        }
        let z = Vec3::new(0, 0, 0);
        let n = z.norm2();
        proof {
            assert(tdiv(0, FP_ONE as int) == 0) by {
                vstd::arithmetic::div_mod::lemma_div_of0(FP_ONE as int);
            }
        }
        z
    } else {
        let p = random_vector_range(rng, -FP_ONE, FP_ONE);
        if p.norm2() < FP_ONE {
            p
        } else {
            sample_in_ball(rng, fuel - 1)
        }
    }
}

/// A vector drawn uniformly from the open unit ball (the zero vector in the
/// vanishingly unlikely case that every rejection round fails).
pub fn random_in_unit_sphere(rng: &mut Rng) -> (r: Vec3)
    ensures
        r == sample_in_ball_spec(old(rng)@, SAMPLE_TRIES as nat).0,
        final(rng)@ == sample_in_ball_spec(old(rng)@, SAMPLE_TRIES as nat).1,
        norm2_spec(r) < FP_ONE as int,
{
    sample_in_ball(rng, SAMPLE_TRIES)
}

/// The unit vector obtained by normalizing a draw from the unit ball.
pub open spec fn random_unit_vector_spec(s: u64) -> Vec3 {
    unit_spec(sample_in_ball_spec(s, SAMPLE_TRIES as nat).0)
}

/// A uniformly drawn unit direction.
pub fn random_unit_vector(rng: &mut Rng) -> (r: Vec3)
    ensures
        r == random_unit_vector_spec(old(rng)@),
        final(rng)@ == sample_in_ball_spec(old(rng)@, SAMPLE_TRIES as nat).1,
{
    let p = random_in_unit_sphere(rng);
    unit_vector(p)
}

/// A uniformly drawn unit direction on the hemisphere around `normal`.
pub open spec fn random_on_hemisphere_spec(s: u64, normal: Vec3) -> Vec3 {
    let u = random_unit_vector_spec(s);
    if dot_spec(u, normal) > 0 {
        u
    } else {
        vec_neg_spec(u)
    }
}

/// A uniformly drawn unit direction on the same side as `normal`.
pub fn random_on_hemisphere(rng: &mut Rng, normal: Vec3) -> (r: Vec3)
    ensures
        r == random_on_hemisphere_spec(old(rng)@, normal),
        final(rng)@ == sample_in_ball_spec(old(rng)@, SAMPLE_TRIES as nat).1,
{
    let on_unit_sphere = random_unit_vector(rng);
    if on_unit_sphere.dot(normal) > 0 {
        on_unit_sphere
    } else {
        on_unit_sphere.negate()
    }
}

/// Rejection sampling in the unit disk of the xy-plane.
pub open spec fn sample_in_disk_spec(s: u64, fuel: nat) -> (Vec3, u64)
    decreases fuel,
{
    if fuel == 0 {
        (Vec3 { x: 0, y: 0, z: 0 }, s)
    } else {
        let p = Vec3 {
            x: rng_range_spec(s, (-FP_ONE) as i64, FP_ONE) as i64,
            y: rng_range_spec(rng_step(s), (-FP_ONE) as i64, FP_ONE) as i64,
            z: 0,
        };
        let s2 = rng_step(rng_step(s));
        if norm2_spec(p) < FP_ONE as int {
            (p, s2)
        } else {
            sample_in_disk_spec(s2, (fuel - 1) as nat)
        }
    }
}

fn sample_in_disk(rng: &mut Rng, fuel: u32) -> (r: Vec3)
    ensures
        r == sample_in_disk_spec(old(rng)@, fuel as nat).0,
        final(rng)@ == sample_in_disk_spec(old(rng)@, fuel as nat).1,
    decreases fuel,
{
    if fuel == 0 {
        Vec3::new(0, 0, 0)
    } else {
        let x = crate::rng::random_range(rng, -FP_ONE, FP_ONE);
        let y = crate::rng::random_range(rng, -FP_ONE, FP_ONE);
        let p = Vec3 { x, y, z: 0 };
        if p.norm2() < FP_ONE {
            p
        } else {
            sample_in_disk(rng, fuel - 1)
        }
    }
}

/// A vector drawn uniformly from the open unit disk of the xy-plane (the
/// zero vector if every rejection round fails).
pub fn random_in_unit_disk(rng: &mut Rng) -> (r: Vec3)
    ensures
        r == sample_in_disk_spec(old(rng)@, SAMPLE_TRIES as nat).0,
        final(rng)@ == sample_in_disk_spec(old(rng)@, SAMPLE_TRIES as nat).1,
{
    sample_in_disk(rng, SAMPLE_TRIES)
}

} // verus!
