//! Fixed-point transcendental approximations.
//!
//! Surface parameterization and the marble pattern need a sine, arctangent
//! and arccosine, and the participating medium needs a logarithm for its
//! free-flight sampling. Each is a short rational or series approximation
//! computed exactly in the fixed-point model, so its contract states the
//! computed value precisely.

use vstd::prelude::*;

use crate::fixed::FP_ONE;
use crate::fixed::emod;
use crate::fixed::fp_add;
use crate::fixed::fp_add_spec;
use crate::fixed::fp_div;
use crate::fixed::fp_div_spec;
use crate::fixed::fp_mul;
use crate::fixed::fp_mul_spec;
use crate::fixed::fp_neg;
use crate::fixed::fp_neg_spec;
use crate::fixed::fp_sqrt;
use crate::fixed::fp_sqrt_spec;
use crate::fixed::fp_sub;
use crate::fixed::fp_sub_spec;
use crate::fixed::iabs;
use crate::fixed::lemma_fp_div_le_one;
use crate::fixed::lemma_fp_mul_abs_le;
use crate::fixed::lemma_fp_mul_nonneg;

verus! {

/// Pi in fixed point.
pub const FP_PI: i64 = 205887;

/// Two pi in fixed point, exactly twice `FP_PI` so that ratios of the two
/// constants (the sphere's azimuth parameterization) come out exact.
pub const FP_TWO_PI: i64 = 411774;

/// Pi over two in fixed point.
pub const FP_HALF_PI: i64 = 102944;

/// Pi over four in fixed point.
pub const FP_QUARTER_PI: i64 = 51472;

/// Five pi squared in fixed point, the denominator constant of the sine.
pub const FP_FIVE_PI_SQ: i64 = 3234072;

/// The natural logarithm of two in fixed point.
pub const FP_LN2: i64 = 45426;

/// The linear correction coefficient of the arctangent approximation.
pub const FP_ATAN_K: i64 = 17891;

/// A value clamped into `[-1, 1]`.
pub open spec fn clamp_unit_spec(v: int) -> int {
    if v > FP_ONE as int {
        FP_ONE as int
    } else if v < -(FP_ONE as int) {
        -(FP_ONE as int)
    } else {
        v
    }
}

/// Bhaskara's rational approximation of the sine on `[0, pi]`:
/// `16 s (pi - s) / (5 pi^2 - 4 s (pi - s))`, clamped into `[-1, 1]`.
pub open spec fn sin_half_turn_spec(s: i64) -> int {
    let p = fp_mul_spec(s as int, fp_sub_spec(FP_PI as int, s as int));
    let num = fp_mul_spec(p, 16 * FP_ONE as int);
    let den = fp_sub_spec(FP_FIVE_PI_SQ as int, fp_mul_spec(p, 4 * FP_ONE as int));
    clamp_unit_spec(fp_div_spec(num, den))
}

/// The sine: the argument reduced into `[0, 2 pi)` and the half-turn
/// approximation applied with the sign of the half the argument lies in.
pub open spec fn fp_sin_spec(x: i64) -> int {
    let s = (x as int) % (FP_TWO_PI as int);
    if s < FP_PI as int {
        sin_half_turn_spec(s as i64)
    } else {
        -sin_half_turn_spec((s - FP_PI as int) as i64)
    }
}

fn sin_half_turn(s: i64) -> (r: i64)
    ensures
        r as int == sin_half_turn_spec(s),
        iabs(r as int) <= FP_ONE as int,
{
    let p = fp_mul(s, fp_sub(FP_PI, s));
    let num = fp_mul(p, 16 * FP_ONE);
    let den = fp_sub(FP_FIVE_PI_SQ, fp_mul(p, 4 * FP_ONE));
    let q = fp_div(num, den);
    if q > FP_ONE {
        FP_ONE
    } else if q < -FP_ONE {
        -FP_ONE
    } else {
        q
    }
}

/// The sine of a fixed-point angle in radians, in `[-1, 1]`.
pub fn fp_sin(x: i64) -> (r: i64)
    ensures
        r as int == fp_sin_spec(x),
        iabs(r as int) <= FP_ONE as int,
{
    let s = emod(x, FP_TWO_PI);
    if s < FP_PI {
        sin_half_turn(s)
    } else {
        let v = sin_half_turn(s - FP_PI);
        -v
    }
}

/// The arctangent on `[-1, 1]`: `t (pi/4 + k (1 - |t|))`.
pub open spec fn atan_unit_spec(t: i64) -> int {
    fp_mul_spec(
        t as int,
        fp_add_spec(
            FP_QUARTER_PI as int,
            fp_mul_spec(FP_ATAN_K as int, fp_sub_spec(FP_ONE as int, iabs(t as int))),
        ),
    )
}

fn atan_unit(t: i64) -> (r: i64)
    requires
        iabs(t as int) <= FP_ONE as int,
    ensures
        r as int == atan_unit_spec(t),
        iabs(r as int) <= FP_QUARTER_PI as int + FP_ATAN_K as int,
{
    let at = if t < 0 {
        -t
    } else {
        t
    };
    let inner = fp_add(FP_QUARTER_PI, fp_mul(FP_ATAN_K, fp_sub(FP_ONE, at)));
    proof {
        lemma_fp_mul_abs_le(FP_ATAN_K as int, fp_sub_spec(FP_ONE as int, iabs(t as int)));
        lemma_fp_mul_abs_le(inner as int, t as int);
        assert(fp_mul_spec(t as int, inner as int) == fp_mul_spec(inner as int, t as int)) by {
            assert((t as int) * (inner as int) == (inner as int) * (t as int)) by (nonlinear_arith);
        }
    }
    fp_mul(t, inner)
}

/// The angle of the point `(x, y)`, in `(-pi, pi]` up to the approximation:
/// the octant is chosen by the larger coordinate and the unit arctangent is
/// applied to the smaller-over-larger quotient.
pub open spec fn fp_atan2_spec(y: i64, x: i64) -> int {
    if y == 0 && x == 0 {
        0
    } else if iabs(y as int) <= iabs(x as int) {
        let base = atan_unit_spec(fp_div_spec(y as int, x as int) as i64);
        if x > 0 {
            base
        } else if y >= 0 {
            base + FP_PI as int
        } else {
            base - FP_PI as int
        }
    } else {
        let base = atan_unit_spec(fp_div_spec(x as int, y as int) as i64);
        if y > 0 {
            FP_HALF_PI as int - base
        } else {
            -(FP_HALF_PI as int) - base
        }
    }
}

/// The angle of the point `(x, y)`.
pub fn fp_atan2(y: i64, x: i64) -> (r: i64)
    ensures
        r as int == fp_atan2_spec(y, x),
        iabs(r as int) <= FP_TWO_PI as int,
{
    let ay: i128 = if y < 0 {
        -(y as i128)
    } else {
        y as i128
    };
    let ax: i128 = if x < 0 {
        -(x as i128)
    } else {
        x as i128
    };
    if y == 0 && x == 0 {
        0
    } else if ay <= ax {
        proof {
            lemma_fp_div_le_one(y as int, x as int);
        }
        let base = atan_unit(fp_div(y, x));
        if x > 0 {
            base
        } else if y >= 0 {
            base + FP_PI
        } else {
            base - FP_PI
        }
    } else {
        proof {
            lemma_fp_div_le_one(x as int, y as int);
        }
        let base = atan_unit(fp_div(x, y));
        if y > 0 {
            FP_HALF_PI - base
        } else {
            -FP_HALF_PI - base
        }
    }
}

/// The arccosine via the arctangent: `acos(y) = atan2(sqrt(1 - y^2), y)`.
pub open spec fn fp_acos_spec(y: i64) -> int {
    let c = fp_sub_spec(FP_ONE as int, fp_mul_spec(y as int, y as int));
    let s = fp_sqrt_spec(if c < 0 {
        0
    } else {
        c
    });
    fp_atan2_spec(s as i64, y)
}

/// The arccosine of a fixed-point scalar (meaningful on `[-1, 1]`).
pub fn fp_acos(y: i64) -> (r: i64)
    ensures
        r as int == fp_acos_spec(y),
        iabs(r as int) <= FP_TWO_PI as int,
{
    let c = fp_sub(FP_ONE, fp_mul(y, y));
    let c2 = if c < 0 {
        0
    } else {
        c
    };
    let s = fp_sqrt(c2);
    proof {
        crate::fixed::lemma_isqrt_exists((c2 as int) * (FP_ONE as int));
        assert((c2 as int) * (FP_ONE as int) <= 0x1_0000_0000_0000_0000_0000) by (nonlinear_arith)
            requires
                0 <= c2 <= i64::MAX,
        ;
        assert(s as int >= 0);
    }
    fp_atan2(s, y)
}

/// How many doublings the logarithm's normalization attempts; a positive
/// fraction needs at most sixteen.
pub const LN_SHIFT_TRIES: u32 = 17;

/// Normalize a positive fraction into `[1/2, 1)` by doublings, counting them.
pub open spec fn ln_norm_spec(v: i64, fuel: nat) -> (i64, int)
    decreases fuel,
{
    if fuel == 0 || v < 1 || v >= 32768 {
        (v, 0)
    } else {
        let rec = ln_norm_spec((2 * v) as i64, (fuel - 1) as nat);
        (rec.0, rec.1 + 1)
    }
}

fn ln_norm(v: i64, fuel: u32) -> (r: (i64, i64))
    requires
        0 <= v < 65536,
    ensures
        r.0 == ln_norm_spec(v, fuel as nat).0,
        r.1 as int == ln_norm_spec(v, fuel as nat).1,
        0 <= r.1 <= fuel,
        0 <= r.0 < 65536,
    decreases fuel,
{
    if fuel == 0 || v < 1 || v >= 32768 {
        (v, 0)
    } else {
        let rec = ln_norm(2 * v, fuel - 1);
        (rec.0, rec.1 + 1)
    }
}

/// The natural logarithm of a fraction in `(0, 1]`, by normalizing into
/// `[1/2, 1)` and summing five terms of the series for `ln(1 - w)`; zero or
/// negative inputs map to negative infinity, as the logarithm's limit.
pub open spec fn fp_ln_spec(u: i64) -> int {
    if u <= 0 {
        i64::MIN as int
    } else if u >= FP_ONE as int {
        0
    } else {
        let norm = ln_norm_spec(u, LN_SHIFT_TRIES as nat);
        let w = fp_sub_spec(FP_ONE as int, norm.0 as int);
        let w2 = fp_mul_spec(w, w);
        let w3 = fp_mul_spec(w2, w);
        let w4 = fp_mul_spec(w3, w);
        let w5 = fp_mul_spec(w4, w);
        let p = fp_add_spec(
            fp_add_spec(
                fp_add_spec(fp_add_spec(w, fp_div_spec(w2, 2 * FP_ONE as int)), fp_div_spec(w3, 3 * FP_ONE as int)),
                fp_div_spec(w4, 4 * FP_ONE as int),
            ),
            fp_div_spec(w5, 5 * FP_ONE as int),
        );
        fp_neg_spec(fp_add_spec(p, fp_mul_spec(norm.1 * FP_ONE as int, FP_LN2 as int)))
    }
}

/// The natural logarithm of a fraction in `(0, 1]`; never positive.
pub fn fp_ln(u: i64) -> (r: i64)
    ensures
        r as int == fp_ln_spec(u),
        r <= 0,
{
    if u <= 0 {
        i64::MIN
    } else if u >= FP_ONE {
        0
    } else {
        let norm = ln_norm(u, LN_SHIFT_TRIES);
        let w = fp_sub(FP_ONE, norm.0);
        let w2 = fp_mul(w, w);
        let w3 = fp_mul(w2, w);
        let w4 = fp_mul(w3, w);
        let w5 = fp_mul(w4, w);
        proof {
            lemma_fp_mul_nonneg(w as int, w as int);
            lemma_fp_mul_nonneg(w2 as int, w as int);
            lemma_fp_mul_nonneg(w3 as int, w as int);
            lemma_fp_mul_nonneg(w4 as int, w as int);
            crate::fixed::lemma_fp_div_nonneg(w2 as int, 2 * FP_ONE as int);
            crate::fixed::lemma_fp_div_nonneg(w3 as int, 3 * FP_ONE as int);
            crate::fixed::lemma_fp_div_nonneg(w4 as int, 4 * FP_ONE as int);
            crate::fixed::lemma_fp_div_nonneg(w5 as int, 5 * FP_ONE as int);
            lemma_fp_mul_nonneg((norm.1 as int) * (FP_ONE as int), FP_LN2 as int);
        }
        let p = fp_add(
            fp_add(fp_add(fp_add(w, fp_div(w2, 2 * FP_ONE)), fp_div(w3, 3 * FP_ONE)), fp_div(w4, 4 * FP_ONE)),
            fp_div(w5, 5 * FP_ONE),
        );
        let k = fp_mul(norm.1 * FP_ONE, FP_LN2);
        fp_neg(fp_add(p, k))
    }
}

} // verus!
