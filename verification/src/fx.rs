//! Fixed-point scalar arithmetic: every quantity of the simulation core
//! (directions, speeds, angles, forces) is an `i64` carrying four decimal
//! places, so `FX_ONE` stands for the real number one.

use vstd::prelude::*;

verus! {

/// One whole unit in the fixed-point encoding (four decimal places).
pub const FX_ONE: i64 = 10_000;

/// The angle pi in fixed-point radians.
pub const PI_FX: i64 = 31_416;

/// The angle pi/2 in fixed-point radians.
pub const HALF_PI_FX: i64 = 15_708;

/// A full turn (two pi) in fixed-point radians.
pub const TWO_PI_FX: i64 = 62_832;

/// Absolute value of a mathematical integer.
pub open spec fn abs_s(a: int) -> int {
    if a >= 0 {
        a
    } else {
        -a
    }
}

/// Scaled product with truncation toward zero: the fixed-point reading of
/// `a * b`.
pub open spec fn fx_mul_s(a: int, b: int) -> int {
    if a * b >= 0 {
        (a * b) / (FX_ONE as int)
    } else {
        -((-(a * b)) / (FX_ONE as int))
    }
}

/// Clamping into a closed interval.
pub open spec fn clamp_s(v: int, lo: int, hi: int) -> int {
    if v < lo {
        lo
    } else if v > hi {
        hi
    } else {
        v
    }
}

/// Absolute value.
pub fn abs_i64(a: i64) -> (r: i64)
    requires
        a != i64::MIN,
    ensures
        r == abs_s(a as int),
        r >= 0,
{
    if a < 0 {
        -a
    } else {
        a
    }
}

/// Clamps `v` into `[lo, hi]`.
pub fn clamp_i64(v: i64, lo: i64, hi: i64) -> (r: i64)
    requires
        lo <= hi,
    ensures
        r == clamp_s(v as int, lo as int, hi as int),
        lo <= r <= hi,
{
    if v < lo {
        lo
    } else if v > hi {
        hi
    } else {
        v
    }
}

/// Fixed-point multiplication, truncating toward zero.
pub fn fx_mul(a: i64, b: i64) -> (r: i64)
    requires
        -i64::MAX <= a * b <= i64::MAX,
    ensures
        r == fx_mul_s(a as int, b as int),
{
    let p: i64 = a * b;
    if p >= 0 {
        ((p as u64) / (FX_ONE as u64)) as i64
    } else {
        let q: i64 = (((-p) as u64) / (FX_ONE as u64)) as i64;
        -q
    }
}

/// The magnitude of a truncating scaled product is the scaled magnitude of
/// the exact product, and the sign is the sign of the exact product.
pub proof fn lemma_fx_mul_s_parts(a: int, b: int)
    ensures
        abs_s(fx_mul_s(a, b)) == abs_s(a * b) / (FX_ONE as int),
        fx_mul_s(a, b) * (a * b) >= 0,
        a * b >= 0 ==> fx_mul_s(a, b) >= 0,
        a * b <= 0 ==> fx_mul_s(a, b) <= 0,
        a * b == 0 ==> fx_mul_s(a, b) == 0,
{
    if a * b >= 0 {
        vstd::arithmetic::div_mod::lemma_div_pos_is_pos(a * b, FX_ONE as int);
        vstd::arithmetic::div_mod::lemma_div_nonincreasing(a * b, FX_ONE as int);
        vstd::arithmetic::mul::lemma_mul_nonnegative(fx_mul_s(a, b), a * b);
    } else {
        vstd::arithmetic::div_mod::lemma_div_pos_is_pos(-(a * b), FX_ONE as int);
        vstd::arithmetic::mul::lemma_mul_nonnegative(-fx_mul_s(a, b), -(a * b));
        assert(fx_mul_s(a, b) * (a * b) == (-fx_mul_s(a, b)) * (-(a * b))) by (nonlinear_arith);
    }
}

/// A bound on each factor bounds the truncating scaled product.
pub proof fn lemma_fx_mul_s_bound(a: int, b: int, ba: int, bb: int)
    requires
        abs_s(a) <= ba,
        abs_s(b) <= bb,
    ensures
        abs_s(fx_mul_s(a, b)) <= (ba * bb) / (FX_ONE as int),
{
    lemma_fx_mul_s_parts(a, b);
    assert(abs_s(a * b) == abs_s(a) * abs_s(b)) by (nonlinear_arith);
    assert(abs_s(a) * abs_s(b) <= ba * bb) by (nonlinear_arith)
        requires
            0 <= abs_s(a) <= ba,
            0 <= abs_s(b) <= bb,
    ;
    vstd::arithmetic::div_mod::lemma_div_is_ordered(abs_s(a * b), ba * bb, FX_ONE as int);
}

/// Floor of `a * b / d` for nonnegative operands.
pub fn mul_div_nonneg(a: i64, b: i64, d: i64) -> (r: i64)
    requires
        0 <= a,
        0 <= b,
        0 < d,
        a * b <= i64::MAX,
    ensures
        r == (a * b) / (d as int),
        0 <= r <= a * b,
{
    proof {
        vstd::arithmetic::div_mod::lemma_div_pos_is_pos(a * b, d as int);
        vstd::arithmetic::div_mod::lemma_div_nonincreasing(a * b, d as int);
    }
    (((a as u64) * (b as u64)) / (d as u64)) as i64
}

/// The integer square root of `n`: the largest `r` with `r * r <= n`.
pub open spec fn isqrt_s(n: nat) -> nat
    decreases n,
{
    if n == 0 {
        0
    } else {
        let r = isqrt_s((n - 1) as nat);
        if (r + 1) * (r + 1) <= n {
            r + 1
        } else {
            r
        }
    }
}

/// The integer square root squared is at most `n`, and the next square is
/// beyond `n`.
pub proof fn lemma_isqrt_s(n: nat)
    ensures
        isqrt_s(n) * isqrt_s(n) <= n,
        n < (isqrt_s(n) + 1) * (isqrt_s(n) + 1),
    decreases n,
{
    if n == 0 {
        assert(isqrt_s(0) == 0);
        assert(n < (isqrt_s(n) + 1) * (isqrt_s(n) + 1)) by (nonlinear_arith)
            requires
                n == 0,
                isqrt_s(n) == 0,
        ;
    } else {
        lemma_isqrt_s((n - 1) as nat);
        let r = isqrt_s((n - 1) as nat);
        if (r + 1) * (r + 1) <= n {
            assert(isqrt_s(n) == r + 1);
            assert(isqrt_s(n) * isqrt_s(n) <= n) by (nonlinear_arith)
                requires
                    isqrt_s(n) == r + 1,
                    (r + 1) * (r + 1) <= n,
            ;
            assert(n < (isqrt_s(n) + 1) * (isqrt_s(n) + 1)) by (nonlinear_arith)
                requires
                    isqrt_s(n) == r + 1,
                    n <= (r + 1) * (r + 1),
            ;
        } else {
            assert(isqrt_s(n) == r);
            assert(isqrt_s(n) * isqrt_s(n) <= n) by (nonlinear_arith)
                requires
                    isqrt_s(n) == r,
                    r * r <= n - 1,
            ;
            assert(n < (isqrt_s(n) + 1) * (isqrt_s(n) + 1)) by (nonlinear_arith)
                requires
                    isqrt_s(n) == r,
                    n < (r + 1) * (r + 1),
            ;
        }
    }
}

/// Any `r` whose square brackets `n` is the integer square root of `n`.
pub proof fn lemma_isqrt_s_unique(n: nat, r: nat)
    requires
        r * r <= n,
        n < (r + 1) * (r + 1),
    ensures
        r == isqrt_s(n),
{
    lemma_isqrt_s(n);
    let q = isqrt_s(n);
    if r < q {
        assert((r + 1) * (r + 1) <= q * q) by (nonlinear_arith)
            requires
                0 <= r + 1 <= q,
        ;
    } else if q < r {
        assert((q + 1) * (q + 1) <= r * r) by (nonlinear_arith)
            requires
                0 <= q + 1 <= r,
        ;
    }
}

/// The smallest `r` with `n <= r * r`.
pub open spec fn sqrt_ceil_s(n: nat) -> nat {
    if isqrt_s(n) * isqrt_s(n) < n {
        isqrt_s(n) + 1
    } else {
        isqrt_s(n)
    }
}

/// Integer square root: the largest `r` with `r * r <= n`.
pub fn isqrt_u64(n: u64) -> (r: u64)
    requires
        n <= 4_000_000_000_000_000_000,
    ensures
        r == isqrt_s(n as nat),
        r * r <= n,
        n < (r + 1) * (r + 1),
        r <= 2_000_000_000,
{
    let mut lo: u64 = 0;
    let mut hi: u64 = 2_000_000_000;
    proof {
        assert((2_000_000_000u64 + 1) * (2_000_000_000u64 + 1) > 4_000_000_000_000_000_000) by (nonlinear_arith);
    }
    while lo < hi
        invariant
            lo <= hi <= 2_000_000_000,
            lo * lo <= n,
            n < (hi + 1) * (hi + 1),
        decreases hi - lo,
    {
        let mid: u64 = lo + (hi - lo + 1) / 2;
        assert(lo < mid <= hi);
        assert(mid * mid <= 4_000_000_000_000_000_000) by (nonlinear_arith)
            requires
                mid <= 2_000_000_000,
        ;
        if mid * mid <= n {
            lo = mid;
        } else {
            hi = mid - 1;
        }
    }
    proof {
        lemma_isqrt_s_unique(n as nat, lo as nat);
    }
    lo
}

/// Ceiling square root: the smallest `r` with `n <= r * r`.
pub fn sqrt_ceil_u64(n: u64) -> (r: u64)
    requires
        n <= 4_000_000_000_000_000_000,
    ensures
        r == sqrt_ceil_s(n as nat),
        n <= r * r,
        r > 0 ==> (r - 1) * (r - 1) < n,
        r == 0 ==> n == 0,
        r <= 2_000_000_001,
{
    let r = isqrt_u64(n);
    proof {
        assert(r * r <= 4_000_000_000_000_000_000) by (nonlinear_arith)
            requires
                r <= 2_000_000_000,
        ;
    }
    if r * r < n {
        r + 1
    } else {
        proof {
            assert(n == r * r);
            assert(r == 0 ==> n == 0) by (nonlinear_arith)
                requires
                    n == r * r,
            ;
            if r > 0 {
                assert((r - 1) * (r - 1) < r * r) by (nonlinear_arith)
                    requires
                        r >= 1,
                ;
            }
        }
        r
    }
}

/// Wraps an angle into `[0, TWO_PI_FX)`: the fixed-point reading of
/// reduction modulo a full turn.
pub fn wrap_angle(a: i64) -> (r: i64)
    requires
        a != i64::MIN,
    ensures
        r == (a as int) % (TWO_PI_FX as int),
        0 <= r < TWO_PI_FX,
{
    let t: u64 = TWO_PI_FX as u64;
    if a >= 0 {
        proof {
            vstd::arithmetic::div_mod::lemma_mod_bound(a as int, TWO_PI_FX as int);
        }
        ((a as u64) % t) as i64
    } else {
        let m: i64 = (((-a) as u64) % t) as i64;
        proof {
            vstd::arithmetic::div_mod::lemma_mod_bound((-a) as int, TWO_PI_FX as int);
            vstd::arithmetic::div_mod::lemma_fundamental_div_mod((-a) as int, TWO_PI_FX as int);
            let q = ((-a) as int) / (TWO_PI_FX as int);
            if m == 0 {
                vstd::arithmetic::div_mod::lemma_fundamental_div_mod_converse(
                    a as int,
                    TWO_PI_FX as int,
                    -q,
                    0,
                );
            } else {
                assert(a as int == (TWO_PI_FX as int) * (-q - 1) + (TWO_PI_FX as int - m)) by {
                    vstd::arithmetic::mul::lemma_mul_is_distributive_sub(
                        TWO_PI_FX as int,
                        -q,
                        1,
                    );
                }
                vstd::arithmetic::div_mod::lemma_fundamental_div_mod_converse(
                    a as int,
                    TWO_PI_FX as int,
                    -q - 1,
                    TWO_PI_FX as int - m,
                );
            }
        }
        if m == 0 {
            0
        } else {
            TWO_PI_FX - m
        }
    }
}

} // verus!
