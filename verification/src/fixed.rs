//! Scaled-integer arithmetic kernel.
//!
//! Every physical quantity in this crate is an `i64` count of millionths of
//! its unit (micro-volts, micro-amps, micro-radians, and so on), so the
//! models' algebra is exact integer arithmetic. Division truncates toward
//! zero, which keeps every operation odd in its dividend — the sign laws of
//! the models depend on that.

use vstd::prelude::*;

verus! {

/// One unit, in micro-steps.
pub const SCALE: i64 = 1_000_000;

/// Largest magnitude a scaled operand may have: the product of two such
/// operands still fits in an `i64`.
pub const MAX_ABS: i64 = 3_000_000_000;

/// Largest magnitude a dividend may have before it is widened by `SCALE`.
pub const MAX_WIDE: i64 = 9_000_000_000_000;

/// The negated counterpart of `MAX_WIDE`.
pub const MIN_WIDE: i64 = -9_000_000_000_000;

/// Division truncating toward zero, for positive divisors.
pub open spec fn tdiv(a: int, b: int) -> int {
    if a >= 0 { a / b } else { -((-a) / b) }
}

/// `x` clamped to `[lo, hi]`.
pub open spec fn clamped(x: int, lo: int, hi: int) -> int {
    if x < lo { lo } else if x > hi { hi } else { x }
}

/// Magnitude of `x`.
pub open spec fn iabs(x: int) -> int {
    if x < 0 { -x } else { x }
}

/// Product of `a` and `b`, scaled back down to micro-units.
pub open spec fn mul_spec(a: int, b: int) -> int {
    tdiv(a * b, SCALE as int)
}

/// Quotient of `a` by `b`, widened so the result is again in micro-units.
pub open spec fn div_spec(a: int, b: int) -> int {
    tdiv(a * SCALE as int, b)
}

/// Truncating division is odd in its dividend.
pub proof fn lemma_tdiv_neg(a: int, b: int)
    requires
        b > 0,
    ensures
        tdiv(-a, b) == -tdiv(a, b),
{
}

/// A magnitude bound on both factors bounds their product.
pub proof fn lemma_mul_bound(a: int, b: int, m: int, n: int)
    by (nonlinear_arith)
    requires
        -m <= a <= m,
        -n <= b <= n,
        0 <= m,
        0 <= n,
    ensures
        -(m * n) <= a * b <= m * n,
{
}

/// Truncating division by a positive divisor never grows the magnitude
/// of the dividend.
pub proof fn lemma_tdiv_shrinks(a: int, b: int)
    requires
        b > 0,
    ensures
        iabs(tdiv(a, b)) <= iabs(a),
        a >= 0 ==> 0 <= tdiv(a, b) <= a,
        a <= 0 ==> a <= tdiv(a, b) <= 0,
{
    if a >= 0 {
        vstd::arithmetic::div_mod::lemma_div_is_ordered_by_denominator(a, 1, b);
        vstd::arithmetic::div_mod::lemma_div_basics(a);
        vstd::arithmetic::div_mod::lemma_div_pos_is_pos(a, b);
    } else {
        vstd::arithmetic::div_mod::lemma_div_is_ordered_by_denominator(-a, 1, b);
        vstd::arithmetic::div_mod::lemma_div_basics(-a);
        vstd::arithmetic::div_mod::lemma_div_pos_is_pos(-a, b);
    }
}

/// A magnitude bound on both factors bounds the scaled product.
pub proof fn lemma_mul_spec_bound(a: int, b: int, m: int, n: int)
    requires
        iabs(a) <= m,
        iabs(b) <= n,
    ensures
        iabs(mul_spec(a, b)) <= tdiv(m * n, SCALE as int),
        0 <= tdiv(m * n, SCALE as int),
{
    lemma_mul_bound(a, b, m, n);
    assert(0 <= m * n) by (nonlinear_arith)
        requires
            0 <= m,
            0 <= n,
    ;
    if a * b >= 0 {
        vstd::arithmetic::div_mod::lemma_div_is_ordered(a * b, m * n, SCALE as int);
        vstd::arithmetic::div_mod::lemma_div_pos_is_pos(a * b, SCALE as int);
    } else {
        vstd::arithmetic::div_mod::lemma_div_is_ordered(-(a * b), m * n, SCALE as int);
        vstd::arithmetic::div_mod::lemma_div_pos_is_pos(-(a * b), SCALE as int);
    }
    vstd::arithmetic::div_mod::lemma_div_pos_is_pos(m * n, SCALE as int);
}

/// Scaling a quantity by a factor of at most one never grows its magnitude.
pub proof fn lemma_mul_frac_bound(a: int, f: int, m: int)
    requires
        iabs(a) <= m,
        0 <= f <= SCALE,
    ensures
        iabs(mul_spec(a, f)) <= m,
{
    lemma_mul_spec_bound(a, f, m, SCALE as int);
    assert(m * SCALE as int == SCALE as int * m) by (nonlinear_arith);
    vstd::arithmetic::div_mod::lemma_div_multiples_vanish(m, SCALE as int);
}

/// A zero factor annihilates a scaled product.
pub proof fn lemma_mul_zero(x: int)
    ensures
        mul_spec(0, x) == 0,
        mul_spec(x, 0) == 0,
{
    assert(0 * x == 0 && x * 0 == 0) by (nonlinear_arith);
    lemma_tdiv_shrinks(0, SCALE as int);
}

/// A zero dividend gives a zero quotient.
pub proof fn lemma_div_zero(b: int)
    requires
        b > 0,
    ensures
        tdiv(0, b) == 0,
        div_spec(0, b) == 0,
{
    lemma_tdiv_shrinks(0, b);
}

/// Scaling one whole unit by a quantity gives the quantity.
pub proof fn lemma_mul_identity_left(t: int)
    ensures
        mul_spec(SCALE as int, t) == t,
{
    assert(SCALE as int * t == t * SCALE as int) by (nonlinear_arith);
    lemma_mul_identity(t);
}

/// Clamp `x` to `[lo, hi]`.
pub fn clamp_to(x: i64, lo: i64, hi: i64) -> (r: i64)
    requires
        lo <= hi,
    ensures
        r as int == clamped(x as int, lo as int, hi as int),
{
    if x < lo {
        lo
    } else if x > hi {
        hi
    } else {
        x
    }
}

/// Magnitude of `x`.
pub fn abs_of(x: i64) -> (r: i64)
    requires
        x > i64::MIN,
    ensures
        r as int == iabs(x as int),
{
    if x < 0 { -x } else { x }
}

/// Truncating division by a positive divisor.
pub fn div_down(a: i64, b: i64) -> (r: i64)
    requires
        b > 0,
        a > i64::MIN,
    ensures
        r as int == tdiv(a as int, b as int),
{
    if a >= 0 {
        proof {
            lemma_tdiv_shrinks(a as int, b as int);
        }
        a / b
    } else {
        proof {
            lemma_tdiv_shrinks(a as int, b as int);
        }
        -((-a) / b)
    }
}

/// Product of two scaled quantities, scaled back down to micro-units.
pub fn mul_scaled(a: i64, b: i64) -> (r: i64)
    requires
        -MAX_ABS <= a <= MAX_ABS,
        -MAX_ABS <= b <= MAX_ABS,
    ensures
        r as int == mul_spec(a as int, b as int),
        -MAX_WIDE <= r <= MAX_WIDE,
{
    proof {
        lemma_mul_bound(a as int, b as int, MAX_ABS as int, MAX_ABS as int);
        lemma_tdiv_shrinks(a as int * b as int, SCALE as int);
    }
    let p: i64 = a * b;
    let r: i64 = div_down(p, SCALE);
    proof {
        lemma_tdiv_shrinks(p as int, SCALE as int);
    }
    r
}

/// Quotient of two scaled quantities, widened so the result is again in
/// micro-units; the divisor must be positive.
pub fn div_scaled(a: i64, b: i64) -> (r: i64)
    requires
        -MAX_WIDE <= a <= MAX_WIDE,
        b > 0,
    ensures
        r as int == div_spec(a as int, b as int),
{
    let w: i64 = a * SCALE;
    div_down(w, b)
}

/// Product of two scaled quantities of larger magnitude, computed through a
/// doubled-width intermediate; the caller bounds the raw product.
pub fn mul_wide(a: i64, b: i64) -> (r: i64)
    requires
        iabs(a as int * b as int) <= MAX_WIDE as int * SCALE as int,
    ensures
        r as int == mul_spec(a as int, b as int),
        -MAX_WIDE <= r <= MAX_WIDE,
{
    let p: i128 = (a as i128) * (b as i128);
    proof {
        lemma_tdiv_shrinks(p as int, SCALE as int);
    }
    let q: i128 = if p >= 0 {
        p / (SCALE as i128)
    } else {
        -((-p) / (SCALE as i128))
    };
    q as i64
}

/// Quotient of two scaled quantities of larger magnitude, computed through
/// a doubled-width intermediate; the caller bounds the result.
pub fn div_wide(a: i64, b: i64) -> (r: i64)
    requires
        b > 0,
        iabs(div_spec(a as int, b as int)) <= i64::MAX as int,
    ensures
        r as int == div_spec(a as int, b as int),
{
    let w: i128 = (a as i128) * (SCALE as i128);
    let q: i128 = if w >= 0 {
        w / (b as i128)
    } else {
        -((-w) / (b as i128))
    };
    q as i64
}

/// Magnitude bounds on the dividend and a floor on the divisor bound the
/// scaled quotient.
pub proof fn lemma_div_spec_bound(a: int, b: int, m: int, bmin: int)
    requires
        iabs(a) <= m,
        0 < bmin <= b,
    ensures
        iabs(div_spec(a, b)) <= tdiv(m * SCALE as int, bmin),
        0 <= tdiv(m * SCALE as int, bmin),
{
    let s: int = SCALE as int;
    assert(0 <= m * s && iabs(a * s) == iabs(a) * s && iabs(a) * s <= m * s) by (nonlinear_arith)
        requires
            iabs(a) <= m,
            s == SCALE as int,
    ;
    if a >= 0 {
        vstd::arithmetic::div_mod::lemma_div_is_ordered(a * s, m * s, b);
        vstd::arithmetic::div_mod::lemma_div_is_ordered_by_denominator(m * s, bmin, b);
        vstd::arithmetic::div_mod::lemma_div_pos_is_pos(a * s, b);
    } else {
        vstd::arithmetic::div_mod::lemma_div_is_ordered(-(a * s), m * s, b);
        vstd::arithmetic::div_mod::lemma_div_is_ordered_by_denominator(m * s, bmin, b);
        vstd::arithmetic::div_mod::lemma_div_pos_is_pos(-(a * s), b);
    }
    vstd::arithmetic::div_mod::lemma_div_pos_is_pos(m * s, bmin);
}

/// Scaling by exactly one is the identity.
pub proof fn lemma_mul_identity(t: int)
    ensures
        mul_spec(t, SCALE as int) == t,
{
    let s: int = SCALE as int;
    if t >= 0 {
        assert(t * s == s * t) by (nonlinear_arith);
        vstd::arithmetic::div_mod::lemma_div_multiples_vanish(t, s);
    } else {
        assert(-(t * s) == s * (-t)) by (nonlinear_arith);
        vstd::arithmetic::div_mod::lemma_div_multiples_vanish(-t, s);
    }
}

/// Scaling by a whole number of units multiplies exactly.
pub proof fn lemma_mul_by_whole(t: int, k: int)
    requires
        k > 0,
    ensures
        mul_spec(t, k * SCALE as int) == k * t,
{
    let s: int = SCALE as int;
    assert(t * (k * s) == s * (k * t)) by (nonlinear_arith);
    if k * t >= 0 {
        assert(t * (k * s) >= 0) by (nonlinear_arith)
            requires
                t * (k * s) == s * (k * t),
                k * t >= 0,
                s > 0,
        ;
        vstd::arithmetic::div_mod::lemma_div_multiples_vanish(k * t, s);
    } else {
        assert(t * (k * s) < 0 && -(t * (k * s)) == s * (-(k * t))) by (nonlinear_arith)
            requires
                t * (k * s) == s * (k * t),
                k * t < 0,
                s > 0,
        ;
        vstd::arithmetic::div_mod::lemma_div_multiples_vanish(-(k * t), s);
    }
}

/// Clamp a doubled-width sum back to `[lo, hi]`.
pub fn clamp_wide(x: i128, lo: i64, hi: i64) -> (r: i64)
    requires
        lo <= hi,
    ensures
        r as int == clamped(x as int, lo as int, hi as int),
{
    if x < lo as i128 {
        lo
    } else if x > hi as i128 {
        hi
    } else {
        x as i64
    }
}

} // verus!
