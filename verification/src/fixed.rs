//! Saturating fixed-point scalar arithmetic.
//!
//! A scalar is an `i64` holding a real value scaled by `FP_ONE` (16 fractional
//! bits). Products and quotients are truncated toward zero and saturated to
//! the `i64` range, so every operation is total; `i64::MAX` and `i64::MIN`
//! double as the positive and negative infinities of the slab tests.

use vstd::prelude::*;

verus! {

/// The fixed-point representation of the real number 1.
pub const FP_ONE: i64 = 65536;

/// Clamp a mathematical integer into the `i64` range.
pub open spec fn sat64(x: int) -> int {
    if x > i64::MAX as int {
        i64::MAX as int
    } else if x < i64::MIN as int {
        i64::MIN as int
    } else {
        x
    }
}

/// Absolute value of a mathematical integer.
pub open spec fn iabs(x: int) -> int {
    if x < 0 {
        -x
    } else {
        x
    }
}

/// Division truncated toward zero, the rounding of the executable quotients.
pub open spec fn tdiv(a: int, b: int) -> int {
    if (a < 0) != (b < 0) {
        -(iabs(a) / iabs(b))
    } else {
        iabs(a) / iabs(b)
    }
}

/// Saturating fixed-point addition.
pub open spec fn fp_add_spec(a: int, b: int) -> int {
    sat64(a + b)
}

/// Saturating fixed-point subtraction.
pub open spec fn fp_sub_spec(a: int, b: int) -> int {
    sat64(a - b)
}

/// Saturating fixed-point product: `a * b / FP_ONE`, truncated toward zero.
pub open spec fn fp_mul_spec(a: int, b: int) -> int {
    sat64(tdiv(a * b, FP_ONE as int))
}

/// Saturating fixed-point quotient: `a * FP_ONE / b`, truncated toward zero.
/// A zero divisor yields the signed infinity matching the numerator's sign,
/// the role IEEE infinities play in the floating-point formulation.
pub open spec fn fp_div_spec(a: int, b: int) -> int {
    if b == 0 {
        if a > 0 {
            i64::MAX as int
        } else if a < 0 {
            i64::MIN as int
        } else {
            0
        }
    } else {
        sat64(tdiv(a * FP_ONE as int, b))
    }
}

/// Negation saturates only at `i64::MIN`.
pub open spec fn fp_neg_spec(a: int) -> int {
    sat64(-a)
}

/// The product of non-negative scalars is non-negative.
pub proof fn lemma_fp_mul_nonneg(a: int, b: int)
    requires
        a >= 0,
        b >= 0,
    ensures
        fp_mul_spec(a, b) >= 0,
{
    assert(a * b >= 0) by (nonlinear_arith)
        requires
            a >= 0,
            b >= 0,
    ;
    vstd::arithmetic::div_mod::lemma_div_pos_is_pos(a * b, FP_ONE as int);
}

/// Multiplying by a factor of magnitude at most one cannot grow a scalar.
pub proof fn lemma_fp_mul_abs_le(a: int, b: int)
    requires
        iabs(b) <= FP_ONE as int,
    ensures
        iabs(fp_mul_spec(a, b)) <= iabs(a),
{
    assert(iabs(a * b) == iabs(a) * iabs(b)) by (nonlinear_arith);
    assert(iabs(a) * iabs(b) <= iabs(a) * (FP_ONE as int)) by (nonlinear_arith)
        requires
            iabs(b) <= FP_ONE as int,
            iabs(a) >= 0,
    ;
    assert(iabs(a * b) / (FP_ONE as int) <= (iabs(a) * (FP_ONE as int)) / (FP_ONE as int)) by {
        vstd::arithmetic::div_mod::lemma_div_is_ordered(
            iabs(a * b),
            iabs(a) * (FP_ONE as int),
            FP_ONE as int,
        );
    }
    assert((iabs(a) * (FP_ONE as int)) / (FP_ONE as int) == iabs(a)) by {
        vstd::arithmetic::div_mod::lemma_div_by_multiple(iabs(a), FP_ONE as int);
    }
    vstd::arithmetic::div_mod::lemma_div_pos_is_pos(iabs(a * b), FP_ONE as int);
}

/// Dividing by a scalar of no smaller magnitude yields at most one.
pub proof fn lemma_fp_div_le_one(a: int, b: int)
    requires
        iabs(a) <= iabs(b),
        b != 0,
    ensures
        iabs(fp_div_spec(a, b)) <= FP_ONE as int,
{
    assert(iabs(a * FP_ONE as int) == iabs(a) * (FP_ONE as int)) by (nonlinear_arith);
    assert(iabs(a) * (FP_ONE as int) <= iabs(b) * (FP_ONE as int)) by (nonlinear_arith)
        requires
            iabs(a) <= iabs(b),
    ;
    assert((iabs(a) * (FP_ONE as int)) / iabs(b) <= (iabs(b) * (FP_ONE as int)) / iabs(b)) by {
        vstd::arithmetic::div_mod::lemma_div_is_ordered(
            iabs(a) * (FP_ONE as int),
            iabs(b) * (FP_ONE as int),
            iabs(b),
        );
    }
    assert((iabs(b) * (FP_ONE as int)) / iabs(b) == FP_ONE as int) by {
        vstd::arithmetic::div_mod::lemma_div_multiples_vanish(FP_ONE as int, iabs(b));
        assert(iabs(b) * (FP_ONE as int) == iabs(b) * (FP_ONE as int)) by (nonlinear_arith);
    }
    vstd::arithmetic::div_mod::lemma_div_pos_is_pos(iabs(a * FP_ONE as int), iabs(b));
}

/// The quotient of a non-negative scalar by a positive one is non-negative.
pub proof fn lemma_fp_div_nonneg(a: int, b: int)
    requires
        a >= 0,
        b > 0,
    ensures
        fp_div_spec(a, b) >= 0,
{
    assert(a * (FP_ONE as int) >= 0) by (nonlinear_arith)
        requires
            a >= 0,
    ;
    vstd::arithmetic::div_mod::lemma_div_pos_is_pos(a * (FP_ONE as int), b);
}

/// The product of a non-negative and a non-positive scalar is non-positive.
pub proof fn lemma_fp_mul_nonneg_nonpos(a: int, b: int)
    requires
        a >= 0,
        b <= 0,
    ensures
        fp_mul_spec(a, b) <= 0,
{
    assert(a * b <= 0) by (nonlinear_arith)
        requires
            a >= 0,
            b <= 0,
    ;
    vstd::arithmetic::div_mod::lemma_div_pos_is_pos(iabs(a * b), FP_ONE as int);
}

/// Division by a positive scalar is monotone in the numerator.
pub proof fn lemma_fp_div_ordered(x: int, y: int, d: int)
    requires
        x <= y,
        d > 0,
    ensures
        fp_div_spec(x, d) <= fp_div_spec(y, d),
{
    let s = FP_ONE as int;
    assert(x * s <= y * s) by (nonlinear_arith)
        requires
            x <= y,
            s > 0,
    ;
    let xs = x * s;
    let ys = y * s;
    if xs >= 0 {
        vstd::arithmetic::div_mod::lemma_div_is_ordered(xs, ys, d);
        assert(ys >= 0);
        vstd::arithmetic::div_mod::lemma_div_pos_is_pos(xs, d);
    } else if ys <= 0 {
        vstd::arithmetic::div_mod::lemma_div_is_ordered(-ys, -xs, d);
        vstd::arithmetic::div_mod::lemma_div_pos_is_pos(-ys, d);
    } else {
        vstd::arithmetic::div_mod::lemma_div_pos_is_pos(-xs, d);
        vstd::arithmetic::div_mod::lemma_div_pos_is_pos(ys, d);
    }
}

/// The product of two non-positive scalars is non-negative.
pub proof fn lemma_fp_mul_nonpos(a: int, b: int)
    requires
        a <= 0,
        b <= 0,
    ensures
        fp_mul_spec(a, b) >= 0,
{
    assert(a * b >= 0) by (nonlinear_arith)
        requires
            a <= 0,
            b <= 0,
    ;
    vstd::arithmetic::div_mod::lemma_div_pos_is_pos(a * b, FP_ONE as int);
}

/// Dividing back by the factor cannot overshoot: if `hd` is at most the
/// fixed-point product of `diff` and `len`, then `hd / len` is at most
/// `diff`.
pub proof fn lemma_fp_div_mul_le(hd: int, diff: int, len: int)
    requires
        0 <= hd,
        hd <= fp_mul_spec(diff, len),
        0 <= len,
        0 <= diff,
    ensures
        fp_div_spec(hd, len) <= diff,
{
    let s = FP_ONE as int;
    if len == 0 {
        assert(diff * 0 == 0) by (nonlinear_arith);
        assert(iabs(0int) / iabs(s) == 0) by {
            vstd::arithmetic::div_mod::lemma_div_of0(s);
        }
        assert(hd == 0);
    } else {
        assert(diff * len >= 0) by (nonlinear_arith)
            requires
                diff >= 0,
                len >= 0,
        ;
        assert(fp_mul_spec(diff, len) <= (diff * len) / s);
        assert(hd * s <= ((diff * len) / s) * s) by (nonlinear_arith)
            requires
                hd <= (diff * len) / s,
                s > 0,
        ;
        assert(((diff * len) / s) * s <= diff * len) by {
            vstd::arithmetic::div_mod::lemma_fundamental_div_mod(diff * len, s);
            vstd::arithmetic::div_mod::lemma_mod_bound(diff * len, s);
            assert(((diff * len) / s) * s == s * ((diff * len) / s)) by (nonlinear_arith);
        }
        assert(hd * s >= 0) by (nonlinear_arith)
            requires
                hd >= 0,
                s > 0,
        ;
        assert((hd * s) / len <= (diff * len) / len) by {
            vstd::arithmetic::div_mod::lemma_div_is_ordered(hd * s, diff * len, len);
        }
        assert((diff * len) / len == diff) by {
            vstd::arithmetic::div_mod::lemma_div_multiples_vanish(diff, len);
            assert(diff * len == len * diff) by (nonlinear_arith);
        }
        vstd::arithmetic::div_mod::lemma_div_pos_is_pos(hd * s, len);
        assert(iabs(hd * s) == hd * s);
        assert(tdiv(hd * s, len) == (hd * s) / len);
    }
}

fn saturate128(q: i128) -> (r: i64)
    ensures
        r as int == sat64(q as int),
{
    if q > i64::MAX as i128 {
        i64::MAX
    } else if q < i64::MIN as i128 {
        i64::MIN
    } else {
        q as i64
    }
}

/// Magnitude of an `i128` that is not `i128::MIN`, as a `u128`.
fn mag128(x: i128) -> (r: u128)
    requires
        x != i128::MIN,
    ensures
        r as int == iabs(x as int),
{
    if x >= 0 {
        x as u128
    } else {
        (-x) as u128
    }
}

/// Truncating signed division on `i128`, for operands away from the extremes.
fn tdiv128(a: i128, b: i128) -> (r: i128)
    requires
        b != 0,
        a != i128::MIN,
        b != i128::MIN,
    ensures
        r as int == tdiv(a as int, b as int),
{
    let n = mag128(a);
    let d = mag128(b);
    let q = n / d;
    proof {
        assert(q as int == iabs(a as int) / iabs(b as int));
        assert(iabs(a as int) / iabs(b as int) <= iabs(a as int)) by {
            vstd::arithmetic::div_mod::lemma_div_nonincreasing(iabs(a as int), iabs(b as int));
        }
    }
    if (a < 0) != (b < 0) {
        -(q as i128)
    } else {
        q as i128
    }
}

/// Saturating fixed-point addition.
pub fn fp_add(a: i64, b: i64) -> (r: i64)
    ensures
        r as int == fp_add_spec(a as int, b as int),
{
    saturate128(a as i128 + b as i128)
}

/// Saturating fixed-point subtraction.
pub fn fp_sub(a: i64, b: i64) -> (r: i64)
    ensures
        r as int == fp_sub_spec(a as int, b as int),
{
    saturate128(a as i128 - b as i128)
}

/// Saturating fixed-point negation.
pub fn fp_neg(a: i64) -> (r: i64)
    ensures
        r as int == fp_neg_spec(a as int),
{
    if a == i64::MIN {
        i64::MAX
    } else {
        -a
    }
}

/// Saturating fixed-point multiplication.
pub fn fp_mul(a: i64, b: i64) -> (r: i64)
    ensures
        r as int == fp_mul_spec(a as int, b as int),
{
    proof {
        assert(i128::MIN < (a as int) * (b as int) && (a as int) * (b as int) < i128::MAX)
            by (nonlinear_arith)
            requires
                i64::MIN <= a <= i64::MAX,
                i64::MIN <= b <= i64::MAX,
        ;
    }
    let p = a as i128 * b as i128;
    let q = tdiv128(p, FP_ONE as i128);
    saturate128(q)
}

/// `r` is the integer square root of `n`: the largest integer whose square
/// does not exceed `n`.
pub open spec fn is_isqrt(n: int, r: int) -> bool {
    &&& 0 <= r
    &&& r * r <= n
    &&& n < (r + 1) * (r + 1)
}

/// The integer square root, as a function.
pub open spec fn isqrt_spec(n: int) -> int {
    choose|r: int| #[trigger] is_isqrt(n, r)
}

/// Fixed-point square root of a non-negative scalar: the integer square root
/// of the value rescaled so the result carries the same number of fractional
/// bits. Negative inputs (which the callers all guard against) map to zero.
pub open spec fn fp_sqrt_spec(a: int) -> int {
    if a < 0 {
        0
    } else {
        isqrt_spec(a * FP_ONE as int)
    }
}

/// Every non-negative integer has an integer square root.
pub proof fn lemma_isqrt_exists(n: int)
    requires
        n >= 0,
    ensures
        exists|r: int| #[trigger] is_isqrt(n, r),
    decreases n,
{
    if n == 0 {
        assert(is_isqrt(0, 0));
    } else {
        lemma_isqrt_exists(n - 1);
        let r = choose|r: int| #[trigger] is_isqrt(n - 1, r);
        if n < (r + 1) * (r + 1) {
            assert(is_isqrt(n, r));
        } else {
            assert(n == (r + 1) * (r + 1));
            assert((r + 1) * (r + 1) < (r + 2) * (r + 2)) by (nonlinear_arith)
                requires
                    r >= 0,
            ;
            assert(is_isqrt(n, r + 1));
        }
    }
}

/// The integer square root is unique, so any witness equals `isqrt_spec`.
pub proof fn lemma_isqrt_unique(n: int, r: int)
    requires
        is_isqrt(n, r),
    ensures
        r == isqrt_spec(n),
{
    let s = isqrt_spec(n);
    assert(is_isqrt(n, s));
    assert(r == s) by (nonlinear_arith)
        requires
            is_isqrt(n, r),
            is_isqrt(n, s),
    ;
}

/// Integer square root by bisection.
fn isqrt_u128(n: u128) -> (r: u128)
    ensures
        is_isqrt(n as int, r as int),
{
    let mut lo: u128 = 0;
    let mut hi: u128 = 0x1_0000_0000_0000_0000;
    proof {
        assert((hi as int) * (hi as int) > n as int) by (nonlinear_arith)
            requires
                hi == 0x1_0000_0000_0000_0000,
                n <= u128::MAX,
        ;
    }
    while lo + 1 < hi
        invariant
            lo < hi <= 0x1_0000_0000_0000_0000,
            (lo as int) * (lo as int) <= n as int,
            (n as int) < (hi as int) * (hi as int),
        decreases hi - lo,
    {
        let mid = lo + (hi - lo) / 2;
        proof {
            assert((mid as int) * (mid as int) <= u128::MAX) by (nonlinear_arith)
                requires
                    mid < 0x1_0000_0000_0000_0000,
            ;
        }
        if mid * mid <= n {
            lo = mid;
        } else {
            hi = mid;
        }
    }
    lo
}

/// Fixed-point square root; saturation never occurs because the result of a
/// 64-bit input fits in well under 41 bits.
pub fn fp_sqrt(a: i64) -> (r: i64)
    requires
        a >= 0,
    ensures
        r as int == fp_sqrt_spec(a as int),
        r >= 0,
{
    proof {
        assert((a as int) * (FP_ONE as int) < 0x1_0000_0000_0000_0000_0000) by (nonlinear_arith)
            requires
                0 <= a <= i64::MAX,
        ;
    }
    let n: u128 = (a as u128) * (FP_ONE as u128);
    let s = isqrt_u128(n);
    proof {
        assert(s as int <= 0x100_0000_0000) by (nonlinear_arith)
            requires
                is_isqrt(n as int, s as int),
                (n as int) < 0x1_0000_0000_0000_0000_0000,
        ;
        lemma_isqrt_unique(n as int, s as int);
    }
    s as i64
}

/// Floor of a fixed-point scalar as a plain integer: Euclidean division by
/// `FP_ONE`, rounding toward negative infinity.
pub fn fp_floor(a: i64) -> (r: i64)
    ensures
        r as int == (a as int) / (FP_ONE as int),
{
    ediv(a, FP_ONE)
}

/// Euclidean division by a positive divisor: the quotient rounded toward
/// negative infinity, so the remainder is never negative.
pub fn ediv(a: i64, d: i64) -> (r: i64)
    requires
        d > 0,
    ensures
        r as int == (a as int) / (d as int),
{
    if a >= 0 {
        (a as u64 / d as u64) as i64
    } else {
        let du: u128 = d as u128;
        let x: u128 = (-(a as i128)) as u128;
        let q = (x + (du - 1)) / du;
        proof {
            let di = d as int;
            let qa = (a as int) / di;
            let ra = (a as int) % di;
            vstd::arithmetic::div_mod::lemma_fundamental_div_mod(a as int, di);
            assert(x as int + di - 1 == di * (-qa) + (di - 1 - ra)) by {
                assert(di * (-qa) == -(di * qa)) by (nonlinear_arith);
            }
            vstd::arithmetic::div_mod::lemma_div_multiples_vanish_fancy(-qa, di - 1 - ra, di);
            assert(q as int == -qa);
            assert(iabs(qa) <= iabs(a as int)) by (nonlinear_arith)
                requires
                    a as int == di * qa + ra,
                    0 <= ra < di,
                    0 < di,
            ;
        }
        (-(q as i128)) as i64
    }
}

/// The Euclidean remainder of division by a positive divisor, in `[0, d)`.
pub fn emod(a: i64, d: i64) -> (r: i64)
    requires
        d > 0,
    ensures
        r as int == (a as int) % (d as int),
        0 <= r < d,
{
    let q = ediv(a, d);
    proof {
        vstd::arithmetic::div_mod::lemma_fundamental_div_mod(a as int, d as int);
        assert((q as int) * (d as int) == (d as int) * ((a as int) / (d as int)))
            by (nonlinear_arith)
            requires
                q as int == (a as int) / (d as int),
        ;
    }
    (a as i128 - (q as i128) * (d as i128)) as i64
}

/// The fractional part of a fixed-point scalar, in `[0, FP_ONE)`: the
/// Euclidean remainder of division by `FP_ONE`.
pub fn fp_frac(a: i64) -> (r: i64)
    ensures
        r as int == (a as int) % (FP_ONE as int),
        0 <= r < FP_ONE,
{
    emod(a, FP_ONE)
}

/// Saturating fixed-point division, with signed infinities for a zero divisor.
pub fn fp_div(a: i64, b: i64) -> (r: i64)
    ensures
        r as int == fp_div_spec(a as int, b as int),
{
    if b == 0 {
        if a > 0 {
            i64::MAX
        } else if a < 0 {
            i64::MIN
        } else {
            0
        }
    } else {
        proof {
            assert(i128::MIN < (a as int) * (FP_ONE as int) && (a as int) * (FP_ONE as int) < i128::MAX)
                by (nonlinear_arith)
                requires
                    i64::MIN <= a <= i64::MAX,
            ;
        }
        let n = a as i128 * FP_ONE as i128;
        let q = tdiv128(n, b as i128);
        saturate128(q)
    }
}

} // verus!
