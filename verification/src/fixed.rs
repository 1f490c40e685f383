//! Total fixed-point scalar arithmetic.
//!
//! A scalar is an `i64` holding the real value scaled by `FX_ONE`.  Every
//! operation clamps its result into `[-FX_MAX, FX_MAX]` (well-formedness),
//! divides toward zero, and maps the degenerate inputs (division by zero,
//! square root of a negative number) to zero, so the whole layer is total.

use vstd::prelude::*;

use crate::{FX_MAX, FX_ONE};

verus! {

/// A scalar is well-formed when it lies in the clamping range.
pub open spec fn fx_wf(v: i64) -> bool {
    -FX_MAX <= v <= FX_MAX
}

/// Clamp a mathematical integer into the representable range.
pub open spec fn clamp_s(x: int) -> int {
    if x > FX_MAX as int {
        FX_MAX as int
    } else if x < -(FX_MAX as int) {
        -(FX_MAX as int)
    } else {
        x
    }
}

pub open spec fn abs_i(x: int) -> int {
    if x >= 0 {
        x
    } else {
        -x
    }
}

/// Division truncating toward zero, as the executable code computes it
/// on magnitudes; zero when the divisor is zero.
pub open spec fn tdiv(a: int, b: int) -> int {
    if b == 0 {
        0
    } else if (a >= 0) == (b >= 0) {
        abs_i(a) / abs_i(b)
    } else {
        -(abs_i(a) / abs_i(b))
    }
}

pub open spec fn add_s(a: i64, b: i64) -> i64 {
    clamp_s(a + b) as i64
}

pub open spec fn sub_s(a: i64, b: i64) -> i64 {
    clamp_s(a - b) as i64
}

pub open spec fn neg_s(a: i64) -> i64 {
    clamp_s(-a) as i64
}

pub open spec fn mul_s(a: i64, b: i64) -> i64 {
    clamp_s(tdiv(a * b, FX_ONE as int)) as i64
}

pub open spec fn div_s(a: i64, b: i64) -> i64 {
    if b == 0 {
        0
    } else {
        clamp_s(tdiv(a * (FX_ONE as int), b as int)) as i64
    }
}

pub open spec fn min_s(a: i64, b: i64) -> i64 {
    if a <= b {
        a
    } else {
        b
    }
}

pub open spec fn max_s(a: i64, b: i64) -> i64 {
    if a >= b {
        a
    } else {
        b
    }
}

pub open spec fn clamp3_s(v: i64, lo: i64, hi: i64) -> i64 {
    if v < lo {
        lo
    } else if v > hi {
        hi
    } else {
        v
    }
}

pub open spec fn abs_s(a: i64) -> i64 {
    if a >= 0 {
        a
    } else {
        neg_s(a)
    }
}

/// Floor of the square root of a natural number.
pub open spec fn sqrt_floor(n: nat) -> nat
    decreases n,
{
    if n == 0 {
        0
    } else {
        let r = sqrt_floor((n - 1) as nat);
        if (r + 1) * (r + 1) <= n {
            r + 1
        } else {
            r
        }
    }
}

/// Fixed-point square root: the raw result is `floor(sqrt(a * FX_ONE))`,
/// because `sqrt(a / FX_ONE) * FX_ONE == sqrt(a * FX_ONE)`.  Zero for
/// non-positive arguments.
pub open spec fn sqrt_s(a: i64) -> i64 {
    if a <= 0 {
        0
    } else {
        sqrt_floor((a * FX_ONE) as nat) as i64
    }
}

pub proof fn lemma_sqrt_floor_bounds(n: nat)
    ensures
        sqrt_floor(n) * sqrt_floor(n) <= n,
        n < (sqrt_floor(n) + 1) * (sqrt_floor(n) + 1),
    decreases n,
{
    if n == 0 {
        assert(sqrt_floor(n) == 0);
        assert(n < (sqrt_floor(n) + 1) * (sqrt_floor(n) + 1)) by (nonlinear_arith)
            requires
                n == 0,
                sqrt_floor(n) == 0,
        ;
    } else {
        lemma_sqrt_floor_bounds((n - 1) as nat);
        let r = sqrt_floor((n - 1) as nat);
        if (r + 1) * (r + 1) <= n {
            assert(sqrt_floor(n) == r + 1);
            assert(n <= (r + 1) * (r + 1));
            assert((r + 1) * (r + 1) < (r + 2) * (r + 2)) by (nonlinear_arith);
        } else {
            assert(sqrt_floor(n) == r);
        }
        assert(sqrt_floor(n) * sqrt_floor(n) <= n);
        assert(n < (sqrt_floor(n) + 1) * (sqrt_floor(n) + 1));
    }
}

pub proof fn lemma_sqrt_floor_unique(n: nat, r: nat)
    requires
        r * r <= n,
        n < (r + 1) * (r + 1),
    ensures
        r == sqrt_floor(n),
{
    let s = sqrt_floor(n);
    lemma_sqrt_floor_bounds(n);
    if r < s {
        assert((r + 1) * (r + 1) <= s * s) by (nonlinear_arith)
            requires
                r + 1 <= s,
        ;
    }
    if s < r {
        assert((s + 1) * (s + 1) <= r * r) by (nonlinear_arith)
            requires
                s + 1 <= r,
        ;
    }
}

/// Clamped fixed-point addition.
pub fn fx_add(a: i64, b: i64) -> (r: i64)
    requires
        fx_wf(a),
        fx_wf(b),
    ensures
        r == add_s(a, b),
        fx_wf(r),
{
    let s: i64 = a + b;
    if s > FX_MAX {
        FX_MAX
    } else if s < -FX_MAX {
        -FX_MAX
    } else {
        s
    }
}

/// Clamped fixed-point subtraction.
pub fn fx_sub(a: i64, b: i64) -> (r: i64)
    requires
        fx_wf(a),
        fx_wf(b),
    ensures
        r == sub_s(a, b),
        fx_wf(r),
{
    let s: i64 = a - b;
    if s > FX_MAX {
        FX_MAX
    } else if s < -FX_MAX {
        -FX_MAX
    } else {
        s
    }
}

/// Fixed-point negation.
pub fn fx_neg(a: i64) -> (r: i64)
    requires
        fx_wf(a),
    ensures
        r == neg_s(a),
        fx_wf(r),
{
    -a
}

/// Clamped fixed-point multiplication, truncating toward zero.
pub fn fx_mul(a: i64, b: i64) -> (r: i64)
    requires
        fx_wf(a),
        fx_wf(b),
    ensures
        r == mul_s(a, b),
        fx_wf(r),
{
    let negative: bool = (a < 0) != (b < 0);
    let ma: u128 = if a < 0 { (-a) as u128 } else { a as u128 };
    let mb: u128 = if b < 0 { (-b) as u128 } else { b as u128 };
    proof {
        assert(ma * mb <= (FX_MAX as u128) * (FX_MAX as u128)) by (nonlinear_arith)
            requires
                ma <= FX_MAX as u128,
                mb <= FX_MAX as u128,
        ;
        assert(ma * mb == abs_i(a * b)) by (nonlinear_arith)
            requires
                ma == abs_i(a as int),
                mb == abs_i(b as int),
        ;
        assert(negative ==> a * b <= 0) by (nonlinear_arith)
            requires
                negative == ((a < 0) != (b < 0)),
        ;
        assert(!negative ==> a * b >= 0) by (nonlinear_arith)
            requires
                negative == ((a < 0) != (b < 0)),
        ;
    }
    let q: u128 = (ma * mb) / (FX_ONE as u128);
    let qc: i64 = if q > (FX_MAX as u128) { FX_MAX } else { q as i64 };
    if negative {
        -qc
    } else {
        qc
    }
}

/// Clamped fixed-point division, truncating toward zero; zero when the
/// divisor is zero (callers guard where the result matters).
pub fn fx_div(a: i64, b: i64) -> (r: i64)
    requires
        fx_wf(a),
        fx_wf(b),
    ensures
        r == div_s(a, b),
        fx_wf(r),
{
    if b == 0 {
        return 0;
    }
    let negative: bool = (a < 0) != (b < 0);
    let ma: u128 = if a < 0 { (-a) as u128 } else { a as u128 };
    let mb: u128 = if b < 0 { (-b) as u128 } else { b as u128 };
    proof {
        assert(ma * (FX_ONE as u128) == abs_i(a * (FX_ONE as int))) by (nonlinear_arith)
            requires
                ma == abs_i(a as int),
        ;
    }
    let q: u128 = (ma * (FX_ONE as u128)) / mb;
    proof {
        assert(q == abs_i(a * (FX_ONE as int)) / abs_i(b as int));
    }
    let qc: i64 = if q > (FX_MAX as u128) { FX_MAX } else { q as i64 };
    if negative {
        -qc
    } else {
        qc
    }
}

/// Fixed-point square root.
pub fn fx_sqrt(a: i64) -> (r: i64)
    requires
        fx_wf(a),
    ensures
        r == sqrt_s(a),
        fx_wf(r),
        r >= 0,
{
    if a <= 0 {
        return 0;
    }
    let n: u128 = (a as u128) * (FX_ONE as u128);
    let mut lo: u64 = 0;
    let mut hi: u64 = 0x100_0000_0000;
    proof {
        assert((0x100_0000_0000 as int) * (0x100_0000_0000 as int) > n as int) by (nonlinear_arith)
            requires
                n as int <= (FX_MAX as int) * (FX_ONE as int),
        ;
    }
    while hi - lo > 1
        invariant
            lo < hi,
            hi <= 0x100_0000_0000,
            (lo as int) * (lo as int) <= n as int,
            (n as int) < (hi as int) * (hi as int),
        decreases hi - lo,
    {
        let mid: u64 = lo + (hi - lo) / 2;
        proof {
            assert((mid as u128) * (mid as u128) <= (0x100_0000_0000 as u128) * (
            0x100_0000_0000 as u128)) by (nonlinear_arith)
                requires
                    mid <= 0x100_0000_0000,
            ;
        }
        if (mid as u128) * (mid as u128) <= n {
            lo = mid;
        } else {
            hi = mid;
        }
    }
    proof {
        lemma_sqrt_floor_unique(n as nat, lo as nat);
    }
    lo as i64
}

/// Fixed-point minimum.
pub fn fx_min(a: i64, b: i64) -> (r: i64)
    ensures
        r == min_s(a, b),
{
    if a <= b {
        a
    } else {
        b
    }
}

/// Fixed-point maximum.
pub fn fx_max(a: i64, b: i64) -> (r: i64)
    ensures
        r == max_s(a, b),
{
    if a >= b {
        a
    } else {
        b
    }
}

/// Clamp a scalar into `[lo, hi]`.
pub fn fx_clamp(v: i64, lo: i64, hi: i64) -> (r: i64)
    ensures
        r == clamp3_s(v, lo, hi),
{
    if v < lo {
        lo
    } else if v > hi {
        hi
    } else {
        v
    }
}

/// Fixed-point absolute value.
pub fn fx_abs(a: i64) -> (r: i64)
    requires
        fx_wf(a),
    ensures
        r == abs_s(a),
        fx_wf(r),
{
    if a >= 0 {
        a
    } else {
        -a
    }
}

/// Fixed-point natural power: `pow_s(b, 0)` is 1.0.
pub open spec fn pow_s(b: i64, e: nat) -> i64
    decreases e,
{
    if e == 0 {
        FX_ONE
    } else {
        mul_s(b, pow_s(b, (e - 1) as nat))
    }
}

/// Fixed-point exponentiation by a non-negative integer exponent.
pub fn fx_pow(base: i64, exponent: u32) -> (r: i64)
    requires
        fx_wf(base),
    ensures
        r == pow_s(base, exponent as nat),
        fx_wf(r),
{
    let mut acc: i64 = FX_ONE;
    let mut k: u32 = 0;
    while k < exponent
        invariant
            k <= exponent,
            fx_wf(base),
            fx_wf(acc),
            acc == pow_s(base, k as nat),
        decreases exponent - k,
    {
        acc = fx_mul(base, acc);
        k = k + 1;
    }
    acc
}

} // verus!
