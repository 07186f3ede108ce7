//! Shared arithmetic: wide multiplication, integer square root, and the
//! division facts the pool and ledger proofs lean on.
//!
//! All prices and amounts are unsigned machine integers; every product is
//! taken in 128 bits before it is narrowed, so the only divisions that occur
//! are by provably non-zero denominators.

use vstd::arithmetic::div_mod::{
    lemma_div_is_ordered, lemma_div_multiples_vanish, lemma_fundamental_div_mod,
    lemma_multiply_divide_le,
};
use vstd::arithmetic::mul::lemma_mul_inequality;
use vstd::prelude::*;

verus! {

/// One more than the largest `u64`; every 64-bit square root is below it.
pub const U64_BOUND: u128 = 0x1_0000_0000_0000_0000;

/// The fixed-point scale of prices: lamports per whole share, times `1e9`.
pub const PRICE_SCALE: u64 = 1_000_000_000;

/// One hundred percent in basis points.
pub const BPS_DENOMINATOR: u64 = 10_000;

/// Widening product of two 64-bit values; never overflows.
pub fn wide_mul_u64(x: u64, y: u64) -> (r: u128)
    ensures
        r == x as int * y as int,
{
    proof {
        lemma_mul_inequality(x as int, 0xffff_ffff_ffff_ffff, y as int);
        lemma_mul_inequality(y as int, 0xffff_ffff_ffff_ffff, 0xffff_ffff_ffff_ffff);
    }
    (x as u128) * (y as u128)
}

/// Floor of the non-negative square root: the unique `r >= 0` with
/// `r * r <= n < (r + 1) * (r + 1)`; 0 for negative arguments.
pub closed spec fn spec_sqrt_floor(n: int) -> int
    decreases n,
{
    if n <= 0 {
        0
    } else {
        let r = spec_sqrt_floor(n - 1);
        if (r + 1) * (r + 1) <= n {
            r + 1
        } else {
            r
        }
    }
}

/// `spec_sqrt_floor` really is the floor of the square root.
pub proof fn lemma_sqrt_floor_bounds(n: int)
    requires
        0 <= n,
    ensures
        0 <= spec_sqrt_floor(n),
        spec_sqrt_floor(n) * spec_sqrt_floor(n) <= n,
        (spec_sqrt_floor(n) + 1) * (spec_sqrt_floor(n) + 1) > n,
    decreases n,
{
    if n > 0 {
        lemma_sqrt_floor_bounds(n - 1);
        let r = spec_sqrt_floor(n - 1);
        if (r + 1) * (r + 1) <= n {
            assert((r + 2) * (r + 2) > n) by (nonlinear_arith)
                requires
                    0 <= r,
                    (r + 1) * (r + 1) > n - 1,
            ;
        }
    }
}

/// No two distinct non-negative integers both satisfy the square-root
/// bracketing, so any bracketing witness is `spec_sqrt_floor`.
pub proof fn lemma_sqrt_floor_unique(n: int, r: int)
    requires
        0 <= n,
        0 <= r,
        r * r <= n,
        (r + 1) * (r + 1) > n,
    ensures
        r == spec_sqrt_floor(n),
{
    let s = spec_sqrt_floor(n);
    lemma_sqrt_floor_bounds(n);
    assert(r == s) by (nonlinear_arith)
        requires
            0 <= r,
            0 <= s,
            r * r <= n,
            (r + 1) * (r + 1) > n,
            s * s <= n,
            (s + 1) * (s + 1) > n,
    ;
}

/// Floor of the square root, by bisection over the 64-bit candidates.
///
/// The result is the unique `r` with `r * r <= v < (r + 1) * (r + 1)`;
/// it always fits in 64 bits.
pub fn isqrt_u128(v: u128) -> (r: u128)
    ensures
        r * r <= v,
        (r + 1) * (r + 1) > v,
        r < U64_BOUND,
        r == spec_sqrt_floor(v as int),
{
    let mut lo: u128 = 0;
    let mut hi: u128 = U64_BOUND;
    proof {
        assert((U64_BOUND as int) * (U64_BOUND as int) > v) by (nonlinear_arith)
            requires
                v <= u128::MAX,
        ;
    }
    while hi - lo > 1
        invariant
            lo < hi,
            hi <= U64_BOUND,
            lo * lo <= v,
            hi * hi > v,
        decreases hi - lo,
    {
        let mid: u128 = lo + (hi - lo) / 2;
        proof {
            assert(mid * mid <= u128::MAX) by (nonlinear_arith)
                requires
                    0 <= mid < U64_BOUND,
            ;
        }
        if mid * mid <= v {
            lo = mid;
        } else {
            hi = mid;
        }
    }
    proof {
        lemma_sqrt_floor_unique(v as int, lo as int);
    }
    lo
}

/// Taking the floor after multiplying cannot overshoot: `(e * y) / d * d <= e * y`,
/// stated in the form the constant-product proofs need.
///
/// With `d = x + e`, the swap output `out = e * y / (x + e)` satisfies
/// `(x + e) * (y - out) >= x * y`: rounding the output down can only leave
/// value in the pool.
pub proof fn lemma_product_after_payout(x: int, y: int, e: int)
    requires
        0 < x,
        0 <= y,
        0 <= e,
    ensures
        (x + e) * (y - (e * y) / (x + e)) >= x * y,
        0 <= (e * y) / (x + e) <= y,
{
    let d = x + e;
    let out = (e * y) / d;
    lemma_fundamental_div_mod(e * y, d);
    // d * out <= e * y, because the remainder is non-negative
    assert(d * out <= e * y);
    lemma_mul_inequality(e, d, y);
    // out <= y
    lemma_multiply_divide_le(e * y, d, y);
    assert(0 <= out) by (nonlinear_arith)
        requires
            0 < d,
            0 <= e * y,
            out == (e * y) / d,
    ;
    assert(d * (y - out) >= x * y) by (nonlinear_arith)
        requires
            d == x + e,
            d * out <= e * y,
            0 < x,
            0 <= e,
            0 <= y,
    ;
}

/// Growing the kept-side reserve can only grow the product: if the pool keeps
/// `dx` of the input but priced the trade on `e <= dx`, the product after the
/// trade is at least `x * y`.
pub proof fn lemma_product_with_full_input(x: int, y: int, e: int, dx: int)
    requires
        0 < x,
        0 <= y,
        0 <= e <= dx,
    ensures
        (x + dx) * (y - (e * y) / (x + e)) >= x * y,
{
    let out = (e * y) / (x + e);
    lemma_product_after_payout(x, y, e);
    lemma_mul_inequality(x + e, x + dx, y - out);
}

/// The protocol's slice of the fee never exceeds what the curve already
/// withheld from the input: `(dx*f/B)*p/f <= dx - dx*(B-f)/B`.
pub proof fn lemma_protocol_fee_within_margin(dx: int, f: int, p: int, b: int)
    requires
        0 <= dx,
        1 <= f <= b,
        0 <= p <= f,
    ensures
        0 <= ((dx * f) / b * p) / f <= dx - (dx * (b - f)) / b,
{
    let fee = (dx * f) / b;
    let pf = (fee * p) / f;
    let e = (dx * (b - f)) / b;
    lemma_fundamental_div_mod(dx * f, b);
    lemma_fundamental_div_mod(dx * (b - f), b);
    // b * fee <= dx * f and b * e <= dx * (b - f), so b * (fee + e) <= b * dx
    assert(b * (fee + e) <= b * dx) by (nonlinear_arith)
        requires
            b * fee <= dx * f,
            b * e <= dx * (b - f),
            0 < b,
    ;
    assert(fee + e <= dx) by (nonlinear_arith)
        requires
            b * (fee + e) <= b * dx,
            0 < b,
    ;
    assert(0 <= fee) by (nonlinear_arith)
        requires
            0 <= dx * f,
            0 < b,
            fee == (dx * f) / b,
    ;
    assert(fee * p <= f * fee) by (nonlinear_arith)
        requires
            0 <= fee,
            0 <= p <= f,
    ;
    lemma_multiply_divide_le(fee * p, f, fee);
    assert(0 <= pf) by (nonlinear_arith)
        requires
            0 <= fee * p,
            0 < f,
            pf == (fee * p) / f,
    ;
    assert(0 <= e) by (nonlinear_arith)
        requires
            0 <= dx * (b - f),
            0 < b,
            e == (dx * (b - f)) / b,
    ;
}

/// Withdrawing against `lp` LP tokens out of `total + lp` returns at most the
/// matching deposit: if `lp * x <= total * t`, then the proportional share of
/// the grown reserve, `(x + t) * lp / (total + lp)`, is at most `t`.
pub proof fn lemma_withdraw_within_deposit(x: int, t: int, total: int, lp: int)
    requires
        0 < total,
        0 <= x,
        0 <= t,
        0 <= lp,
        lp * x <= total * t,
    ensures
        ((x + t) * lp) / (total + lp) <= t,
{
    assert((x + t) * lp <= t * (total + lp)) by (nonlinear_arith)
        requires
            lp * x <= total * t,
            0 <= t,
            0 <= lp,
    ;
    lemma_multiply_divide_le((x + t) * lp, total + lp, t);
}

/// An exactly-scaled purchase prices its cost basis with no rounding: when
/// `s` divides `a * p`, recovering the basis from the invested total gives
/// back `p`, and selling `a` at that basis realizes exactly the cost.
pub proof fn lemma_exact_cost_basis(a: int, p: int, s: int)
    requires
        0 < a,
        0 <= p,
        0 < s,
        (a * p) % s == 0,
    ensures
        ((a * p) / s * s) / a == p,
        a * (((a * p) / s * s) / a) / s == (a * p) / s,
{
    let c = (a * p) / s;
    lemma_fundamental_div_mod(a * p, s);
    assert(c * s == a * p);
    assert(c * s == a * p ==> (c * s) / a == (a * p) / a) by (nonlinear_arith);
    lemma_div_multiples_vanish(p, a);
    assert((a * p) / a == p);
    assert((c * s) / a == p);
    lemma_div_multiples_vanish(c, s);
    assert((s * c) / s == c);
    assert(a * p == s * c);
    assert(a * ((c * s) / a) == a * p) by (nonlinear_arith)
        requires
            (c * s) / a == p,
    ;
}

/// Smaller of two mathematical integers.
pub open spec fn spec_min(a: int, b: int) -> int {
    if a < b {
        a
    } else {
        b
    }
}

/// Saturating 64-bit sum.
pub open spec fn spec_saturating_add_u64(a: int, b: int) -> int {
    if a + b > u64::MAX as int {
        u64::MAX as int
    } else {
        a + b
    }
}

/// Saturating difference: zero instead of going negative.
pub open spec fn spec_saturating_sub(a: int, b: int) -> int {
    if a >= b {
        a - b
    } else {
        0
    }
}

/// Division by a positive denominator is monotone in the numerator.
pub proof fn lemma_div_ordered(x: int, y: int, d: int)
    requires
        x <= y,
        0 < d,
    ensures
        x / d <= y / d,
{
    lemma_div_is_ordered(x, y, d);
}

} // verus!
