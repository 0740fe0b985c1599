//! 16.16 fixed-point scalar arithmetic.
//!
//! A scalar value `v` is represented by the raw integer `v * FX_SCALE` stored
//! in an `i64`. Every operation is total: products and quotients are computed
//! in wide integers, truncated toward zero, and saturated to the range
//! `[FX_MIN, FX_MAX]`, so no operation can panic or overflow. Division by
//! zero yields zero ("no contribution" for degenerate geometry).

use vstd::prelude::*;

verus! {

/// A 16.16 fixed-point scalar, stored as its raw representation.
pub type Fx = i64;

/// Raw units per 1.0.
pub const FX_SCALE: i64 = 65536;
/// The scalar 1.0.
pub const FX_ONE: i64 = 65536;
/// The scalar 0.5.
pub const FX_HALF: i64 = 32768;
/// Saturation ceiling for every operation: 2^47 - 1 raw units.
pub const FX_MAX: i64 = 140737488355327;
/// Saturation floor: -(2^47 - 1) raw units.
pub const FX_MIN: i64 = -140737488355327;

/// Clamps a mathematical integer into the representable raw range.
pub open spec fn sat(x: int) -> int {
    if x > FX_MAX {
        FX_MAX as int
    } else if x < FX_MIN {
        FX_MIN as int
    } else {
        x
    }
}

/// Division truncated toward zero, for a positive divisor.
pub open spec fn tdiv(a: int, b: int) -> int {
    if a >= 0 {
        a / b
    } else {
        -((-a) / b)
    }
}

/// Raw result of fixed-point addition.
pub open spec fn fadd(a: int, b: int) -> int {
    sat(a + b)
}

/// Raw result of fixed-point subtraction.
pub open spec fn fsub(a: int, b: int) -> int {
    sat(a - b)
}

/// Raw result of fixed-point negation.
pub open spec fn fneg(a: int) -> int {
    sat(-a)
}

/// Raw result of fixed-point multiplication.
pub open spec fn fmul(a: int, b: int) -> int {
    sat(tdiv(a * b, FX_SCALE as int))
}

/// Raw result of fixed-point division; zero when the divisor is zero.
pub open spec fn fdiv(a: int, b: int) -> int {
    if b == 0 {
        0
    } else if b > 0 {
        sat(tdiv(a * FX_SCALE, b))
    } else {
        sat(tdiv(-(a * FX_SCALE), -b))
    }
}

/// Raw result of clamping `x` into `[lo, hi]`.
pub open spec fn fclamp(x: int, lo: int, hi: int) -> int {
    if x < lo {
        lo
    } else if x > hi {
        hi
    } else {
        x
    }
}

/// Raw absolute value, saturated.
pub open spec fn fabs(a: int) -> int {
    if a >= 0 {
        sat(a)
    } else {
        sat(-a)
    }
}

/// A product of values bounded in absolute value is bounded by the product
/// of the bounds.
pub(crate) proof fn lemma_mul_abs_bound(a: int, b: int, ba: int, bb: int)
    requires
        -ba <= a <= ba,
        -bb <= b <= bb,
        0 <= ba,
        0 <= bb,
    ensures
        -(ba * bb) <= a * b <= ba * bb,
{
    if a >= 0 {
        if b >= 0 {
            vstd::arithmetic::mul::lemma_mul_upper_bound(a, ba, b, bb);
            vstd::arithmetic::mul::lemma_mul_nonnegative(a, b);
        } else {
            vstd::arithmetic::mul::lemma_mul_upper_bound(a, ba, -b, bb);
            vstd::arithmetic::mul::lemma_mul_nonnegative(a, -b);
            assert(a * b == -(a * (-b))) by (nonlinear_arith);
        }
    } else {
        if b >= 0 {
            vstd::arithmetic::mul::lemma_mul_upper_bound(-a, ba, b, bb);
            vstd::arithmetic::mul::lemma_mul_nonnegative(-a, b);
            assert(a * b == -((-a) * b)) by (nonlinear_arith);
        } else {
            vstd::arithmetic::mul::lemma_mul_upper_bound(-a, ba, -b, bb);
            vstd::arithmetic::mul::lemma_mul_nonnegative(-a, -b);
            assert(a * b == (-a) * (-b)) by (nonlinear_arith);
        }
    }
}

/// Widening product of two raw scalars; the result always fits in `i128`.
pub(crate) fn wide_mul(a: i64, b: i64) -> (r: i128)
    ensures
        r as int == a as int * b as int,
        -0x40000000000000000000000000000000 <= r as int
            <= 0x40000000000000000000000000000000,
{
    proof {
        lemma_mul_abs_bound(a as int, b as int, 0x8000000000000000, 0x8000000000000000);
    }
    (a as i128) * (b as i128)
}

pub(crate) fn sat_i128(x: i128) -> (r: i64)
    ensures
        r as int == sat(x as int),
{
    if x > FX_MAX as i128 {
        FX_MAX
    } else if x < FX_MIN as i128 {
        FX_MIN
    } else {
        x as i64
    }
}

pub(crate) fn tdiv_i128(a: i128, b: i128) -> (r: i128)
    requires
        b > 0,
        a != i128::MIN,
    ensures
        r as int == tdiv(a as int, b as int),
{
    if a >= 0 {
        let q: u128 = (a as u128) / (b as u128);
        assert(q == (a as int) / (b as int));
        assert(q <= a as int) by {
            vstd::arithmetic::div_mod::lemma_div_nonincreasing(a as int, b as int);
        }
        q as i128
    } else {
        let m: u128 = ((-a) as u128) / (b as u128);
        assert(m == ((-a) as int) / (b as int));
        assert(m <= (-a) as int) by {
            vstd::arithmetic::div_mod::lemma_div_nonincreasing((-a) as int, b as int);
        }
        -(m as i128)
    }
}

/// Saturating fixed-point addition.
pub fn fx_add(a: Fx, b: Fx) -> (r: Fx)
    ensures
        r as int == fadd(a as int, b as int),
{
    sat_i128(a as i128 + b as i128)
}

/// Saturating fixed-point subtraction.
pub fn fx_sub(a: Fx, b: Fx) -> (r: Fx)
    ensures
        r as int == fsub(a as int, b as int),
{
    sat_i128(a as i128 - b as i128)
}

/// Saturating fixed-point negation.
pub fn fx_neg(a: Fx) -> (r: Fx)
    ensures
        r as int == fneg(a as int),
{
    sat_i128(-(a as i128))
}

/// Saturating fixed-point multiplication, truncated toward zero.
pub fn fx_mul(a: Fx, b: Fx) -> (r: Fx)
    ensures
        r as int == fmul(a as int, b as int),
{
    let w: i128 = wide_mul(a, b);
    let q: i128 = tdiv_i128(w, FX_SCALE as i128);
    sat_i128(q)
}

/// Saturating fixed-point division, truncated toward zero; zero for a zero
/// divisor.
pub fn fx_div(a: Fx, b: Fx) -> (r: Fx)
    ensures
        r as int == fdiv(a as int, b as int),
{
    if b == 0 {
        0
    } else {
        let w: i128 = wide_mul(a, FX_SCALE);
        if b > 0 {
            sat_i128(tdiv_i128(w, b as i128))
        } else {
            sat_i128(tdiv_i128(-w, -(b as i128)))
        }
    }
}

/// Clamps a scalar into `[lo, hi]`; callers supply `lo <= hi`.
pub fn fx_clamp(x: Fx, lo: Fx, hi: Fx) -> (r: Fx)
    requires
        lo <= hi,
    ensures
        r as int == fclamp(x as int, lo as int, hi as int),
{
    if x < lo {
        lo
    } else if x > hi {
        hi
    } else {
        x
    }
}

/// Saturating absolute value.
pub fn fx_abs(a: Fx) -> (r: Fx)
    ensures
        r as int == fabs(a as int),
{
    if a >= 0 {
        sat_i128(a as i128)
    } else {
        sat_i128(-(a as i128))
    }
}

/// The larger of two scalars.
pub fn fx_max(a: Fx, b: Fx) -> (r: Fx)
    ensures
        r as int == if a as int >= b as int { a as int } else { b as int },
{
    if a >= b {
        a
    } else {
        b
    }
}

/// The smaller of two scalars.
pub fn fx_min(a: Fx, b: Fx) -> (r: Fx)
    ensures
        r as int == if a as int <= b as int { a as int } else { b as int },
{
    if a <= b {
        a
    } else {
        b
    }
}

/// Division by the scale is exact on multiples of the scale.
pub proof fn lemma_tdiv_exact(d: int, s: int)
    requires
        s > 0,
    ensures
        tdiv(d * s, s) == d,
{
    if d >= 0 {
        assert(d * s >= 0) by (nonlinear_arith)
            requires d >= 0 && s > 0;
        vstd::arithmetic::div_mod::lemma_div_multiples_vanish(d, s);
        assert((s * d) / s == d);
        assert(d * s == s * d);
        assert(tdiv(d * s, s) == d);
    } else {
        assert(d * s < 0) by (nonlinear_arith)
            requires d < 0 && s > 0;
        assert(-(d * s) == (-d) * s) by (nonlinear_arith);
        vstd::arithmetic::div_mod::lemma_div_multiples_vanish(-d, s);
        assert((s * (-d)) / s == -d);
        assert((-(d * s)) / s == -d);
        assert(tdiv(d * s, s) == d);
    }
}

/// Converts an unsigned frame counter to fixed point, saturating.
pub fn fx_from_u32(u: u32) -> (r: Fx)
    ensures
        r as int == sat(u as int * FX_SCALE as int),
{
    sat_i128(wide_mul(u as i64, FX_SCALE))
}

/// Converts a small integer to fixed point, saturating.
pub fn fx_from_int(i: i32) -> (r: Fx)
    ensures
        r as int == sat(i as int * FX_SCALE as int),
{
    sat_i128(wide_mul(i as i64, FX_SCALE))
}

} // verus!
