//! Saturating fixed-point arithmetic.
//!
//! Every physical quantity handled by this crate — coordinate, velocity
//! component, mass, time step — is an `i64` counting billionths of a unit.
//! The operations below define, exactly, what each arithmetic step of the
//! simulation computes: products and quotients are evaluated in 128 bits,
//! quotients are truncated toward zero, and results that fall outside the
//! `i64` range saturate at its bounds (the fixed-point counterpart of a
//! floating-point value running off to infinity).

use vstd::prelude::*;

verus! {

/// Number of fixed-point steps in one whole unit.
pub const SCALE: i64 = 1_000_000_000;

/// Clamps a mathematical integer into the `i64` range.
pub open spec fn clip(x: int) -> int {
    if x > i64::MAX as int {
        i64::MAX as int
    } else if x < i64::MIN as int {
        i64::MIN as int
    } else {
        x
    }
}

/// Clamps a mathematical integer into the `i128` range.
pub open spec fn clip_wide(x: int) -> int {
    if x > i128::MAX as int {
        i128::MAX as int
    } else if x < i128::MIN as int {
        i128::MIN as int
    } else {
        x
    }
}

/// Quotient `a / b` rounded toward zero, for a positive divisor `b`.
pub open spec fn div_trunc(a: int, b: int) -> int {
    if a >= 0 {
        a / b
    } else {
        -((-a) / b)
    }
}

/// Saturating `i64` sum.
pub open spec fn sat_add(a: int, b: int) -> int {
    clip(a + b)
}

/// Saturating `i64` difference.
pub open spec fn sat_sub(a: int, b: int) -> int {
    clip(a - b)
}

/// Fixed-point product `a * b / SCALE`, truncated toward zero and saturated.
pub open spec fn mul_fx(a: int, b: int) -> int {
    clip(div_trunc(a * b, SCALE as int))
}

/// Integer square root: the greatest `r` with `r * r <= n`.
pub open spec fn sqrt_floor(n: nat) -> nat
    decreases n,
{
    if n == 0 {
        0
    } else {
        let s = 2 * sqrt_floor(n / 4);
        if (s + 1) * (s + 1) <= n {
            s + 1
        } else {
            s
        }
    }
}

/// The defining property of `sqrt_floor`: it is the exact floor of the
/// square root.
pub proof fn lemma_sqrt_floor_bounds(n: nat)
    ensures
        sqrt_floor(n) * sqrt_floor(n) <= n,
        n < (sqrt_floor(n) + 1) * (sqrt_floor(n) + 1),
    decreases n,
{
    if n != 0 {
        lemma_sqrt_floor_bounds(n / 4);
        let r = sqrt_floor(n / 4);
        let s = 2 * r;
        assert(4 * ((n as int) / 4) <= n as int && (n as int) < 4 * ((n as int) / 4) + 4) by {
            vstd::arithmetic::div_mod::lemma_fundamental_div_mod(n as int, 4);
            vstd::arithmetic::div_mod::lemma_mod_division_less_than_divisor(n as int, 4);
        };
        assert(s * s <= n) by (nonlinear_arith)
            requires
                r * r <= n / 4,
                4 * ((n as int) / 4) <= n as int,
                s == 2 * r,
        ;
        assert(n < (s + 2) * (s + 2)) by (nonlinear_arith)
            requires
                n / 4 < (r + 1) * (r + 1),
                (n as int) < 4 * ((n as int) / 4) + 4,
                s == 2 * r,
        ;
        let res = sqrt_floor(n);
        assert(n < (res + 1) * (res + 1)) by (nonlinear_arith)
            requires
                res == if (s + 1) * (s + 1) <= n {
                    (s + 1) as nat
                } else {
                    s
                },
                n < (s + 2) * (s + 2),
        ;
        assert(sqrt_floor(n) * sqrt_floor(n) <= n);
        assert(n < (sqrt_floor(n) + 1) * (sqrt_floor(n) + 1));
    } else {
        assert(sqrt_floor(n) == 0);
        assert(n < (sqrt_floor(n) + 1) * (sqrt_floor(n) + 1)) by (nonlinear_arith)
            requires
                n == 0,
                sqrt_floor(n) == 0,
        ;
    }
}

/// Any value bracketing `n` between consecutive squares is `sqrt_floor(n)`.
pub proof fn lemma_sqrt_floor_unique(n: nat, r: nat)
    requires
        r * r <= n,
        n < (r + 1) * (r + 1),
    ensures
        r == sqrt_floor(n),
{
    lemma_sqrt_floor_bounds(n);
    let s = sqrt_floor(n);
    assert(r == s) by (nonlinear_arith)
        requires
            r * r <= n,
            n < (r + 1) * (r + 1),
            s * s <= n,
            n < (s + 1) * (s + 1),
    ;
}

/// Integer square root of a 128-bit value, by bisection.
pub fn isqrt(n: u128) -> (r: u64)
    ensures
        r as nat == sqrt_floor(n as nat),
{
    let mut lo: u128 = 0;
    let mut hi: u128 = u64::MAX as u128;
    proof {
        assert((u64::MAX as int + 1) * (u64::MAX as int + 1) > u128::MAX as int)
            by (nonlinear_arith);
    }
    while lo < hi
        invariant
            lo <= hi <= u64::MAX as u128,
            lo as int * lo as int <= n as int,
            (n as int) < (hi as int + 1) * (hi as int + 1),
        decreases hi - lo,
    {
        let mid: u128 = lo + (hi - lo + 1) / 2;
        proof {
            assert(mid as int * mid as int <= u128::MAX as int) by (nonlinear_arith)
                requires
                    0 <= mid as int <= u64::MAX as int,
            ;
        }
        let sq: u128 = mid * mid;
        if sq <= n {
            lo = mid;
        } else {
            hi = mid - 1;
        }
    }
    proof {
        lemma_sqrt_floor_unique(n as nat, lo as nat);
    }
    lo as u64
}

/// Narrows a 128-bit value to `i64`, saturating at the bounds.
pub fn narrow(x: i128) -> (r: i64)
    ensures
        r as int == clip(x as int),
{
    if x > i64::MAX as i128 {
        i64::MAX
    } else if x < i64::MIN as i128 {
        i64::MIN
    } else {
        x as i64
    }
}

/// Saturating `i64` addition.
pub fn add_sat(a: i64, b: i64) -> (r: i64)
    ensures
        r as int == sat_add(a as int, b as int),
{
    narrow(a as i128 + b as i128)
}

/// Saturating `i64` subtraction.
pub fn sub_sat(a: i64, b: i64) -> (r: i64)
    ensures
        r as int == sat_sub(a as int, b as int),
{
    narrow(a as i128 - b as i128)
}

/// Truncating division of 128-bit values, for a positive divisor.
pub fn div_wide(a: i128, b: i128) -> (r: i128)
    requires
        b > 0,
    ensures
        r as int == div_trunc(a as int, b as int),
{
    let q = a.checked_div(b);
    proof {
        if a >= 0 {
            vstd::arithmetic::div_mod::lemma_div_nonincreasing(a as int, b as int);
            vstd::arithmetic::div_mod::lemma_div_pos_is_pos(a as int, b as int);
        } else {
            vstd::arithmetic::div_mod::lemma_div_nonincreasing(-(a as int), b as int);
            vstd::arithmetic::div_mod::lemma_div_pos_is_pos(-(a as int), b as int);
        }
    }
    q.unwrap()
}

/// Fixed-point multiplication: `a * b / SCALE`, truncated and saturated.
pub fn mul_fx_exec(a: i64, b: i64) -> (r: i64)
    ensures
        r as int == mul_fx(a as int, b as int),
{
    proof {
        assert(a as int * b as int <= i128::MAX as int && a as int * b as int >= i128::MIN
            as int) by (nonlinear_arith)
            requires
                i64::MIN <= a <= i64::MAX,
                i64::MIN <= b <= i64::MAX,
        ;
    }
    let p: i128 = (a as i128) * (b as i128);
    let q: i128 = div_wide(p, SCALE as i128);
    narrow(q)
}

} // verus!
