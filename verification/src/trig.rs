//! Fixed-point approximations of the transcendental functions the shaders
//! use: sine, cosine, square root, truncation-based fractional part, integer
//! powers, arctangent and arcsine.
//!
//! Sine uses a rational approximation on a half period and cosine a rational
//! approximation on a quarter period, both exact at zero; arguments are first
//! reduced modulo one full turn. The square root is the exact integer square
//! root of the widened radicand. Each function is total and pinned by a spec
//! function over raw values.

use vstd::prelude::*;
use crate::fx::{
    Fx, FX_SCALE, FX_ONE, fabs, fadd, fclamp, fdiv, fmul, fneg, fsub, tdiv,
    fx_abs, fx_add, fx_div, fx_mul, fx_sub, fx_clamp, tdiv_i128, lemma_mul_abs_bound,
};

verus! {

/// Half a turn (pi) in raw units.
pub const PI_RAW: i64 = 205887;
/// A full turn (two pi) in raw units.
pub const TWO_PI_RAW: i64 = 411775;
/// A quarter turn (pi over two) in raw units.
pub const HALF_PI_RAW: i64 = 102944;
/// An eighth of a turn (pi over four) in raw units.
pub const QUARTER_PI_RAW: i64 = 51472;

/// Euclidean remainder: the representative of `a` in `[0, m)`.
pub fn emod(a: i64, m: i64) -> (r: i64)
    requires
        m > 0,
    ensures
        r as int == a as int % m as int,
        0 <= r < m,
{
    let wide: i128 = a as i128;
    if wide >= 0 {
        let t: u128 = (wide as u128) % (m as u128);
        assert(t == (a as int) % (m as int));
        t as i64
    } else {
        let t: u128 = ((-wide) as u128) % (m as u128);
        assert(t == ((-wide) as int) % (m as int));
        proof {
            let x = a as int;
            let mm = m as int;
            let q = (-x) / mm;
            vstd::arithmetic::div_mod::lemma_fundamental_div_mod(-x, mm);
            if t == 0 {
                assert(x == (-q) * mm + 0) by (nonlinear_arith)
                    requires -x == q * mm + 0;
                vstd::arithmetic::div_mod::lemma_fundamental_div_mod_converse(x, mm, -q, 0);
            } else {
                assert(x == (-q - 1) * mm + (mm - t)) by (nonlinear_arith)
                    requires -x == q * mm + t;
                vstd::arithmetic::div_mod::lemma_fundamental_div_mod_converse(x, mm, -q - 1, mm - t);
            }
        }
        if t == 0 {
            0
        } else {
            m - (t as i64)
        }
    }
}

/// On `[0, p]` the parabola `x (p - x)` is nonnegative and at most a
/// quarter of `p^2`.
proof fn lemma_half_wave(x: int, p: int)
    requires
        0 <= x <= p,
    ensures
        0 <= x * (p - x),
        4 * (x * (p - x)) <= p * p,
{
    assert((p - 2 * x) * (p - 2 * x) >= 0) by (nonlinear_arith);
    assert((p - 2 * x) * (p - 2 * x) == p * p - 4 * (x * (p - x))) by (nonlinear_arith);
    assert(x * (p - x) >= 0) by (nonlinear_arith)
        requires 0 <= x && x <= p;
}

/// A square of a value in `[0, b]` lies in `[0, b^2]`.
proof fn lemma_square_bound(x: int, b: int)
    requires
        0 <= x <= b,
    ensures
        0 <= x * x <= b * b,
{
    assert(0 <= x * x <= b * b) by (nonlinear_arith)
        requires 0 <= x <= b;
}

/// Raw sine on the first half period, `0 <= x <= PI_RAW`, by the rational
/// approximation `16 x (pi - x) / (5 pi^2 - 4 x (pi - x))`; exact at zero.
pub open spec fn sin_half(x: int) -> int {
    let a = x * (PI_RAW - x);
    tdiv(16 * a * FX_SCALE, 5 * PI_RAW * PI_RAW - 4 * a)
}

/// Raw sine of any angle: reduce modulo a turn, then use the half-period
/// approximation with the sign of the half.
pub open spec fn fsin(x: int) -> int {
    let m = x % (TWO_PI_RAW as int);
    if m < PI_RAW {
        sin_half(m)
    } else {
        -sin_half(m - PI_RAW)
    }
}

/// Raw cosine on the first quarter period, `0 <= x <= HALF_PI_RAW`, by the
/// rational approximation `(pi^2 - 4 x^2) / (pi^2 + x^2)`; exact at zero.
pub open spec fn cos_quarter(x: int) -> int {
    let sq = x * x;
    tdiv((PI_RAW * PI_RAW - 4 * sq) * FX_SCALE, PI_RAW * PI_RAW + sq)
}

/// Raw cosine of any angle: reduce modulo a turn and fold into the first
/// quarter period.
pub open spec fn fcos(x: int) -> int {
    let m = x % (TWO_PI_RAW as int);
    if m <= HALF_PI_RAW {
        cos_quarter(m)
    } else if m < PI_RAW + HALF_PI_RAW {
        if m < PI_RAW {
            -cos_quarter(PI_RAW - m)
        } else {
            -cos_quarter(m - PI_RAW)
        }
    } else {
        cos_quarter(TWO_PI_RAW - m)
    }
}

fn sin_half_fx(x: i64) -> (r: i64)
    requires
        0 <= x <= PI_RAW,
    ensures
        r as int == sin_half(x as int),
        0 <= r <= FX_ONE,
{
    proof {
        lemma_half_wave(x as int, PI_RAW as int);
    }
    let a: i64 = x * (PI_RAW - x);
    let num: i64 = 16 * a * FX_SCALE;
    let den: i64 = 5 * PI_RAW * PI_RAW - 4 * a;
    let q: u64 = (num as u64) / (den as u64);
    proof {
        vstd::arithmetic::div_mod::lemma_div_is_ordered(num as int, den as int * FX_SCALE as int, den as int);
        vstd::arithmetic::div_mod::lemma_div_multiples_vanish(FX_SCALE as int, den as int);
        vstd::arithmetic::div_mod::lemma_div_pos_is_pos(num as int, den as int);
    }
    q as i64
}

fn cos_quarter_fx(x: i64) -> (r: i64)
    requires
        0 <= x <= HALF_PI_RAW,
    ensures
        r as int == cos_quarter(x as int),
        -FX_ONE <= r <= FX_ONE,
{
    proof {
        lemma_square_bound(x as int, HALF_PI_RAW as int);
    }
    let sq: i64 = x * x;
    let num: i64 = (PI_RAW * PI_RAW - 4 * sq) * FX_SCALE;
    let den: i64 = PI_RAW * PI_RAW + sq;
    if num >= 0 {
        let u: u64 = (num as u64) / (den as u64);
        proof {
            vstd::arithmetic::div_mod::lemma_div_is_ordered(num as int, den as int * FX_SCALE as int, den as int);
            vstd::arithmetic::div_mod::lemma_div_multiples_vanish(FX_SCALE as int, den as int);
            vstd::arithmetic::div_mod::lemma_div_pos_is_pos(num as int, den as int);
        }
        u as i64
    } else {
        let u: u64 = ((-num) as u64) / (den as u64);
        proof {
            vstd::arithmetic::div_mod::lemma_div_is_ordered(-num as int, den as int * FX_SCALE as int, den as int);
            vstd::arithmetic::div_mod::lemma_div_multiples_vanish(FX_SCALE as int, den as int);
            vstd::arithmetic::div_mod::lemma_div_pos_is_pos(-num as int, den as int);
        }
        -(u as i64)
    }
}

/// Fixed-point sine; the result lies in `[-1, 1]` and the sine of zero is
/// exactly zero.
pub fn fx_sin(x: Fx) -> (r: Fx)
    ensures
        r as int == fsin(x as int),
        -FX_ONE <= r <= FX_ONE,
{
    let m: i64 = emod(x, TWO_PI_RAW);
    if m < PI_RAW {
        sin_half_fx(m)
    } else {
        -sin_half_fx(m - PI_RAW)
    }
}

/// Fixed-point cosine; the result lies in `[-1, 1]` and the cosine of zero
/// is exactly one.
pub fn fx_cos(x: Fx) -> (r: Fx)
    ensures
        r as int == fcos(x as int),
        -FX_ONE <= r <= FX_ONE,
{
    let m: i64 = emod(x, TWO_PI_RAW);
    if m <= HALF_PI_RAW {
        cos_quarter_fx(m)
    } else if m < PI_RAW + HALF_PI_RAW {
        if m < PI_RAW {
            -cos_quarter_fx(PI_RAW - m)
        } else {
            -cos_quarter_fx(m - PI_RAW)
        }
    } else {
        cos_quarter_fx(TWO_PI_RAW - m)
    }
}

/// The sine of zero is exactly zero and the cosine of zero exactly one.
pub proof fn lemma_trig_zero()
    ensures
        fsin(0) == 0,
        fcos(0) == FX_ONE,
{
    assert(0int % (TWO_PI_RAW as int) == 0) by {
        vstd::arithmetic::div_mod::lemma_small_mod(0nat, TWO_PI_RAW as nat);
    }
    assert(sin_half(0) == 0) by {
        assert(0int * (PI_RAW - 0) == 0);
        assert(tdiv(16 * 0 * FX_SCALE, 5 * PI_RAW * PI_RAW - 4 * 0) == 0) by {
            vstd::arithmetic::div_mod::lemma_div_of0(5 * PI_RAW * PI_RAW - 4 * 0);
        }
    }
    assert(cos_quarter(0) == FX_ONE) by {
        let p2 = PI_RAW as int * PI_RAW as int;
        assert(0int * 0int == 0);
        assert(cos_quarter(0) == tdiv((p2 - 0) * FX_SCALE, p2 + 0));
        assert((p2 * FX_SCALE) / p2 == FX_SCALE) by {
            vstd::arithmetic::div_mod::lemma_div_multiples_vanish(FX_SCALE as int, p2);
        }
        assert(p2 * FX_SCALE >= 0) by (nonlinear_arith)
            requires p2 >= 0;
    }
}

/// Exact integer square root, defined by counting up.
pub open spec fn isqrt_spec(n: int) -> int
    decreases n,
{
    if n <= 0 {
        0
    } else {
        let r = isqrt_spec(n - 1);
        if (r + 1) * (r + 1) <= n {
            r + 1
        } else {
            r
        }
    }
}

/// The integer square root brackets its argument between consecutive
/// squares.
pub proof fn lemma_isqrt_props(n: int)
    requires
        n >= 0,
    ensures
        isqrt_spec(n) >= 0,
        isqrt_spec(n) * isqrt_spec(n) <= n,
        n < (isqrt_spec(n) + 1) * (isqrt_spec(n) + 1),
    decreases n,
{
    if n == 0 {
        assert(isqrt_spec(0) == 0);
    } else {
        lemma_isqrt_props(n - 1);
        let r = isqrt_spec(n - 1);
        if (r + 1) * (r + 1) <= n {
            assert(n < ((r + 1) + 1) * ((r + 1) + 1)) by (nonlinear_arith)
                requires n - 1 < (r + 1) * (r + 1) && r >= 0;
        }
    }
}

/// Any integer bracketed between the same consecutive squares is the
/// integer square root.
pub proof fn lemma_isqrt_unique(n: int, r: int)
    requires
        n >= 0,
        r >= 0,
        r * r <= n,
        n < (r + 1) * (r + 1),
    ensures
        r == isqrt_spec(n),
{
    lemma_isqrt_props(n);
    let s = isqrt_spec(n);
    if r < s {
        assert(false) by (nonlinear_arith)
            requires r >= 0 && s >= 0 && r < s && s * s <= n && n < (r + 1) * (r + 1);
    }
    if s < r {
        assert(false) by (nonlinear_arith)
            requires r >= 0 && s >= 0 && s < r && r * r <= n && n < (s + 1) * (s + 1);
    }
}

/// Raw fixed-point square root: the integer square root of the widened
/// radicand, and zero for a non-positive argument.
pub open spec fn fsqrt(x: int) -> int {
    if x <= 0 {
        0
    } else {
        isqrt_spec(x * FX_SCALE)
    }
}

/// Fixed-point square root; nonnegative, zero on non-positive input.
pub fn fx_sqrt(x: Fx) -> (r: Fx)
    ensures
        r as int == fsqrt(x as int),
        r >= 0,
{
    if x <= 0 {
        return 0;
    }
    proof {
        lemma_mul_abs_bound(x as int, FX_SCALE as int, 0x8000000000000000, 65536);
    }
    let n: u128 = (x as u128) * (FX_SCALE as u128);
    assert(n == x as int * FX_SCALE as int);
    assert(n < 0x100000000000000000000);
    let mut lo: u128 = 0;
    let mut hi: u128 = 1099511627776;
    proof {
        assert((hi + 1) * (hi + 1) > n as int) by (nonlinear_arith)
            requires hi == 1099511627776 && (n as int) < 0x100000000000000000000;
    }
    while lo < hi
        invariant
            lo <= hi <= 1099511627776,
            lo * lo <= n,
            n < (hi + 1) * (hi + 1),
        decreases hi - lo,
    {
        let mid: u128 = lo + (hi - lo + 1) / 2;
        assert(lo < mid <= hi);
        proof {
            lemma_mul_abs_bound(mid as int, mid as int, 1099511627777, 1099511627777);
        }
        let sq: u128 = mid * mid;
        if sq <= n {
            lo = mid;
        } else {
            hi = mid - 1;
        }
    }
    proof {
        lemma_isqrt_unique(n as int, lo as int);
    }
    lo as i64
}

/// Raw truncation-based fractional part: `x` minus its integer part, with
/// the sign of `x`, as the hash masks expect.
pub open spec fn ffract(x: int) -> int {
    x - tdiv(x, FX_SCALE as int) * FX_SCALE
}

/// Fixed-point fractional part, truncation-based (sign-preserving).
pub fn fx_fract(x: Fx) -> (r: Fx)
    ensures
        r as int == ffract(x as int),
        -FX_SCALE < r < FX_SCALE,
{
    let t: i128 = tdiv_i128(x as i128, FX_SCALE as i128);
    proof {
        let xi = x as int;
        let s = FX_SCALE as int;
        if xi >= 0 {
            vstd::arithmetic::div_mod::lemma_fundamental_div_mod(xi, s);
            vstd::arithmetic::div_mod::lemma_mod_bound(xi, s);
            vstd::arithmetic::div_mod::lemma_div_pos_is_pos(xi, s);
            vstd::arithmetic::div_mod::lemma_div_nonincreasing(xi, s);
            assert(s * (xi / s) == (xi / s) * s);
        } else {
            vstd::arithmetic::div_mod::lemma_fundamental_div_mod(-xi, s);
            vstd::arithmetic::div_mod::lemma_mod_bound(-xi, s);
            vstd::arithmetic::div_mod::lemma_div_pos_is_pos(-xi, s);
            vstd::arithmetic::div_mod::lemma_div_nonincreasing(-xi, s);
            assert(s * ((-xi) / s) == ((-xi) / s) * s);
        }
    }
    let prod: i128 = t * (FX_SCALE as i128);
    let r: i128 = (x as i128) - prod;
    r as i64
}

/// Raw integer power of a fixed-point base.
pub open spec fn fpow(x: int, n: nat) -> int
    decreases n,
{
    if n == 0 {
        FX_ONE as int
    } else {
        fmul(x, fpow(x, (n - 1) as nat))
    }
}

/// Fixed-point integer power by repeated multiplication.
pub fn fx_powi(x: Fx, n: u32) -> (r: Fx)
    ensures
        r as int == fpow(x as int, n as nat),
{
    let mut acc: Fx = FX_ONE;
    let mut i: u32 = 0;
    while i < n
        invariant
            i <= n,
            acc as int == fpow(x as int, i as nat),
        decreases n - i,
    {
        acc = fx_mul(x, acc);
        i = i + 1;
    }
    acc
}

/// Raw arctangent on `[0, 1]` by a cubic polynomial correction of the
/// linear term; exact at zero.
pub open spec fn atan_unit(z: int) -> int {
    fadd(
        fmul(z, QUARTER_PI_RAW as int),
        fmul(fmul(z, fsub(FX_ONE as int, z)), fadd(16038, fmul(4345, z))),
    )
}

/// Raw two-argument arctangent in `(-pi, pi]`, via octant folding of the
/// unit-interval approximation.
pub open spec fn fatan2(y: int, x: int) -> int {
    let ax = fabs(x);
    let ay = fabs(y);
    if ax == 0 && ay == 0 {
        0
    } else {
        let base = if ay <= ax {
            atan_unit(fdiv(ay, ax))
        } else {
            fsub(HALF_PI_RAW as int, atan_unit(fdiv(ax, ay)))
        };
        let q = if x >= 0 {
            base
        } else {
            fsub(PI_RAW as int, base)
        };
        if y >= 0 {
            q
        } else {
            fneg(q)
        }
    }
}

fn atan_unit_fx(z: Fx) -> (r: Fx)
    ensures
        r as int == atan_unit(z as int),
{
    fx_add(
        fx_mul(z, QUARTER_PI_RAW),
        fx_mul(fx_mul(z, fx_sub(FX_ONE, z)), fx_add(16038, fx_mul(4345, z))),
    )
}

/// Fixed-point two-argument arctangent.
pub fn fx_atan2(y: Fx, x: Fx) -> (r: Fx)
    ensures
        r as int == fatan2(y as int, x as int),
{
    let ax = fx_abs(x);
    let ay = fx_abs(y);
    if ax == 0 && ay == 0 {
        return 0;
    }
    let base: Fx = if ay <= ax {
        atan_unit_fx(fx_div(ay, ax))
    } else {
        fx_sub(HALF_PI_RAW, atan_unit_fx(fx_div(ax, ay)))
    };
    let q: Fx = if x >= 0 {
        base
    } else {
        fx_sub(PI_RAW, base)
    };
    if y >= 0 {
        q
    } else {
        crate::fx::fx_neg(q)
    }
}

/// Raw arcsine: the argument is clamped into `[-1, 1]` (out-of-range inputs
/// are absorbed rather than propagated as non-finite values), then measured
/// against the complementary leg.
pub open spec fn fasin(z: int) -> int {
    let zc = fclamp(z, -(FX_ONE as int), FX_ONE as int);
    fatan2(zc, fsqrt(fsub(FX_ONE as int, fmul(zc, zc))))
}

/// Fixed-point arcsine with input clamped to `[-1, 1]`.
pub fn fx_asin(z: Fx) -> (r: Fx)
    ensures
        r as int == fasin(z as int),
{
    let zc = fx_clamp(z, -FX_ONE, FX_ONE);
    let leg = fx_sqrt(fx_sub(FX_ONE, fx_mul(zc, zc)));
    fx_atan2(zc, leg)
}

} // verus!
