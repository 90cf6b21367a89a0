//! Fixed-point three-component vectors and horizontal normalization.
//!
//! Directions live in the horizontal plane (the vertical component is
//! zero). Normalization maps the zero vector to itself and every other
//! vector to one of magnitude one, up to the fixed-point quantum: the
//! squared norm of a normalized vector lands in
//! `[FX_ONE * FX_ONE - 7 * FX_ONE, FX_ONE * FX_ONE]`, never above one and
//! never anywhere between zero and that band.

use vstd::prelude::*;
use crate::fx::{FX_ONE, abs_i64, abs_s, mul_div_nonneg, sqrt_ceil_s, sqrt_ceil_u64};

verus! {

/// Largest magnitude a coordinate handed to this library may carry:
/// keeps every square and cross product within `i64`.
pub const COORD_LIMIT: i64 = 1_000_000_000;

/// A point or direction with four decimal places per component.
#[derive(Clone, Copy, PartialEq, Eq, Structural, Debug)]
pub struct Vec3Fx {
    pub x: i64,
    pub y: i64,
    pub z: i64,
}

impl Vec3Fx {
    /// Builds a vector from its components.
    pub fn new(x: i64, y: i64, z: i64) -> (r: Vec3Fx)
        ensures
            r.x == x,
            r.y == y,
            r.z == z,
    {
        Vec3Fx { x, y, z }
    }

    /// The zero vector.
    pub fn zero() -> (r: Vec3Fx)
        ensures
            r.x == 0,
            r.y == 0,
            r.z == 0,
    {
        Vec3Fx { x: 0, y: 0, z: 0 }
    }

    /// All three coordinates within `COORD_LIMIT`.
    pub open spec fn bounded(self) -> bool {
        &&& -COORD_LIMIT <= self.x <= COORD_LIMIT
        &&& -COORD_LIMIT <= self.y <= COORD_LIMIT
        &&& -COORD_LIMIT <= self.z <= COORD_LIMIT
    }

    /// A horizontal direction of magnitude zero or one (up to the
    /// fixed-point quantum).
    pub open spec fn is_unit_or_zero_xz(self) -> bool {
        self.y == 0 && unit_or_zero_xz(self.x as int, self.z as int)
    }
}

/// The squared horizontal norm.
pub open spec fn sq_norm_xz_s(x: int, z: int) -> int {
    x * x + z * z
}

/// Magnitude exactly zero, or one up to the fixed-point quantum: the
/// squared norm lies in `[FX_ONE^2 - 7 * FX_ONE, FX_ONE^2]`.
pub open spec fn unit_or_zero_xz(x: int, z: int) -> bool {
    ||| (x == 0 && z == 0)
    ||| (FX_ONE * FX_ONE - 7 * FX_ONE <= sq_norm_xz_s(x, z) <= FX_ONE * FX_ONE)
}

/// One component of a vector scaled onto the unit circle: `c * FX_ONE / n`
/// rounded toward zero, where `n` is the vector's magnitude rounded up.
pub open spec fn scale_to_unit_s(c: int, n: int) -> int {
    if c >= 0 {
        (c * (FX_ONE as int)) / n
    } else {
        -(((-c) * (FX_ONE as int)) / n)
    }
}

/// The working pair for normalization: inputs shorter than one unit are
/// pre-scaled by `FX_ONE` so that the quotient keeps four decimal places
/// of precision.
pub open spec fn norm_input_s(x: int, z: int) -> (int, int) {
    if sq_norm_xz_s(x, z) < (FX_ONE as int) * (FX_ONE as int) {
        (x * (FX_ONE as int), z * (FX_ONE as int))
    } else {
        (x, z)
    }
}

/// What horizontal normalization returns: the zero vector for zero input,
/// otherwise each working component scaled by `FX_ONE` over the ceiling
/// square root of the working squared norm.
pub open spec fn normalize_xz_s(x: int, z: int) -> (int, int) {
    if x == 0 && z == 0 {
        (0, 0)
    } else {
        let ux = norm_input_s(x, z).0;
        let uz = norm_input_s(x, z).1;
        let n = sqrt_ceil_s(sq_norm_xz_s(ux, uz) as nat) as int;
        (scale_to_unit_s(ux, n), scale_to_unit_s(uz, n))
    }
}

/// Scaling by `FX_ONE / n` with `n` at least the magnitude keeps the
/// squared norm at or below one.
proof fn lemma_norm_upper(ax: int, az: int, n: int, rx: int, rz: int)
    requires
        0 <= ax,
        0 <= az,
        1 <= n,
        ax * ax + az * az <= n * n,
        rx == (ax * (FX_ONE as int)) / n,
        rz == (az * (FX_ONE as int)) / n,
    ensures
        0 <= rx <= FX_ONE,
        0 <= rz <= FX_ONE,
        rx * rx + rz * rz <= FX_ONE * FX_ONE,
{
    let s = FX_ONE as int;
    assert(ax <= n && az <= n) by (nonlinear_arith)
        requires
            0 <= ax,
            0 <= az,
            1 <= n,
            ax * ax + az * az <= n * n,
    ;
    vstd::arithmetic::div_mod::lemma_div_pos_is_pos(ax * s, n);
    vstd::arithmetic::div_mod::lemma_div_pos_is_pos(az * s, n);
    vstd::arithmetic::div_mod::lemma_div_is_ordered(ax * s, n * s, n);
    vstd::arithmetic::div_mod::lemma_div_is_ordered(az * s, n * s, n);
    vstd::arithmetic::div_mod::lemma_div_multiples_vanish(s, n);
    assert(rx <= s && rz <= s);
    vstd::arithmetic::div_mod::lemma_fundamental_div_mod(ax * s, n);
    vstd::arithmetic::div_mod::lemma_mod_bound(ax * s, n);
    vstd::arithmetic::div_mod::lemma_fundamental_div_mod(az * s, n);
    vstd::arithmetic::div_mod::lemma_mod_bound(az * s, n);
    assert(n * rx <= ax * s);
    assert(n * rz <= az * s);
    assert((rx * rx + rz * rz) * (n * n) <= (ax * ax + az * az) * (s * s)) by (nonlinear_arith)
        requires
            0 <= rx,
            0 <= rz,
            0 <= n,
            n * rx <= ax * s,
            n * rz <= az * s,
            0 <= ax * s,
            0 <= az * s,
    ;
    assert((ax * ax + az * az) * (s * s) <= (n * n) * (s * s)) by (nonlinear_arith)
        requires
            ax * ax + az * az <= n * n,
            0 <= s * s,
    ;
    assert(rx * rx + rz * rz <= s * s) by (nonlinear_arith)
        requires
            (rx * rx + rz * rz) * (n * n) <= (n * n) * (s * s),
            1 <= n,
    ;
}

/// With the working magnitude at least one unit, scaling loses less than
/// the band `7 * FX_ONE` of squared norm: the result cannot land strictly
/// between zero and one.
proof fn lemma_norm_lower(ax: int, az: int, n: int, rx: int, rz: int)
    requires
        0 <= ax <= n,
        0 <= az <= n,
        FX_ONE <= n,
        (n - 1) * (n - 1) < ax * ax + az * az,
        rx == (ax * (FX_ONE as int)) / n,
        rz == (az * (FX_ONE as int)) / n,
        0 <= rx <= FX_ONE,
        0 <= rz <= FX_ONE,
    ensures
        rx * rx + rz * rz >= FX_ONE * FX_ONE - 7 * FX_ONE,
{
    let s = FX_ONE as int;
    vstd::arithmetic::div_mod::lemma_fundamental_div_mod(ax * s, n);
    vstd::arithmetic::div_mod::lemma_mod_bound(ax * s, n);
    vstd::arithmetic::div_mod::lemma_fundamental_div_mod(az * s, n);
    vstd::arithmetic::div_mod::lemma_mod_bound(az * s, n);
    assert(ax * s < n * (rx + 1)) by (nonlinear_arith)
        requires
            ax * s == n * rx + (ax * s) % n,
            (ax * s) % n < n,
    ;
    assert(az * s < n * (rz + 1)) by (nonlinear_arith)
        requires
            az * s == n * rz + (az * s) % n,
            (az * s) % n < n,
    ;
    let q = rx * rx + rz * rz;
    if q <= s * s - 7 * s - 1 {
        assert((ax * s) * (ax * s) < (n * (rx + 1)) * (n * (rx + 1))) by (nonlinear_arith)
            requires
                0 <= ax * s,
                ax * s < n * (rx + 1),
        ;
        assert((az * s) * (az * s) < (n * (rz + 1)) * (n * (rz + 1))) by (nonlinear_arith)
            requires
                0 <= az * s,
                az * s < n * (rz + 1),
        ;
        assert((ax * s) * (ax * s) == (ax * ax) * (s * s) && (az * s) * (az * s) == (az * az) * (s
            * s)) by (nonlinear_arith);
        assert((n * (rx + 1)) * (n * (rx + 1)) == ((rx + 1) * (rx + 1)) * (n * n) && (n * (rz + 1))
            * (n * (rz + 1)) == ((rz + 1) * (rz + 1)) * (n * n)) by (nonlinear_arith);
        assert((ax * ax + az * az) * (s * s) == (ax * ax) * (s * s) + (az * az) * (s * s))
            by (nonlinear_arith);
        assert(((rx + 1) * (rx + 1) + (rz + 1) * (rz + 1)) * (n * n) == ((rx + 1) * (rx + 1)) * (n
            * n) + ((rz + 1) * (rz + 1)) * (n * n)) by (nonlinear_arith);
        assert((ax * ax + az * az) * (s * s) < ((rx + 1) * (rx + 1) + (rz + 1) * (rz + 1)) * (n
            * n));
        assert(((n - 1) * (n - 1) + 1) * (s * s) <= (ax * ax + az * az) * (s * s))
            by (nonlinear_arith)
            requires
                (n - 1) * (n - 1) + 1 <= ax * ax + az * az,
                0 <= s * s,
        ;
        assert((rx + 1) * (rx + 1) + (rz + 1) * (rz + 1) <= q + 4 * s + 2) by (nonlinear_arith)
            requires
                q == rx * rx + rz * rz,
                rx <= s,
                rz <= s,
        ;
        assert(((rx + 1) * (rx + 1) + (rz + 1) * (rz + 1)) * (n * n) <= (q + 4 * s + 2) * (n * n))
            by (nonlinear_arith)
            requires
                (rx + 1) * (rx + 1) + (rz + 1) * (rz + 1) <= q + 4 * s + 2,
                0 <= n * n,
        ;
        assert((q + 4 * s + 2) * (n * n) <= (s * s - 3 * s + 1) * (n * n)) by (nonlinear_arith)
            requires
                q + 4 * s + 2 <= s * s - 3 * s + 1,
                0 <= n * n,
        ;
        assert((s * s - 3 * s + 1) * (n * n) <= ((n - 1) * (n - 1) + 1) * (s * s))
            by (nonlinear_arith)
            requires
                s == 10_000,
                n >= 10_000,
        ;
        assert(false);
    }
}

/// Each component of a unit-or-zero horizontal direction lies within
/// one unit.
pub proof fn lemma_unit_component_bounds(v: Vec3Fx)
    requires
        v.is_unit_or_zero_xz(),
    ensures
        abs_s(v.x as int) <= FX_ONE,
        abs_s(v.z as int) <= FX_ONE,
{
    if !(v.x == 0 && v.z == 0) {
        assert(abs_s(v.x as int) <= FX_ONE && abs_s(v.z as int) <= FX_ONE) by (nonlinear_arith)
            requires
                v.x * v.x + v.z * v.z <= FX_ONE * FX_ONE,
                FX_ONE == 10_000,
        ;
    }
}

/// Horizontal normalization: the zero vector stays zero, every other
/// input is scaled to magnitude one up to the fixed-point quantum, with
/// the sign of each component kept.
pub fn normalize_or_zero_xz(x: i64, z: i64) -> (r: (i64, i64))
    requires
        -COORD_LIMIT <= x <= COORD_LIMIT,
        -COORD_LIMIT <= z <= COORD_LIMIT,
    ensures
        r.0 == normalize_xz_s(x as int, z as int).0,
        r.1 == normalize_xz_s(x as int, z as int).1,
        unit_or_zero_xz(r.0 as int, r.1 as int),
        (r.0 == 0 && r.1 == 0) <==> (x == 0 && z == 0),
        r.0 * x >= 0,
        r.1 * z >= 0,
        -FX_ONE <= r.0 <= FX_ONE,
        -FX_ONE <= r.1 <= FX_ONE,
{
    if x == 0 && z == 0 {
        return (0i64, 0i64);
    }
    proof {
        assert(0 <= x * x <= COORD_LIMIT * COORD_LIMIT && 0 <= z * z <= COORD_LIMIT * COORD_LIMIT)
            by (nonlinear_arith)
            requires
                -COORD_LIMIT <= x <= COORD_LIMIT,
                -COORD_LIMIT <= z <= COORD_LIMIT,
        ;
    }
    let sq0: i64 = x * x + z * z;
    let ux: i64;
    let uz: i64;
    if sq0 < FX_ONE * FX_ONE {
        proof {
            assert(-FX_ONE < x < FX_ONE && -FX_ONE < z < FX_ONE) by (nonlinear_arith)
                requires
                    0 <= x * x,
                    0 <= z * z,
                    x * x + z * z < FX_ONE * FX_ONE,
                    FX_ONE == 10_000,
            ;
        }
        ux = x * FX_ONE;
        uz = z * FX_ONE;
    } else {
        ux = x;
        uz = z;
    }
    let ax: i64 = abs_i64(ux);
    let az: i64 = abs_i64(uz);
    proof {
        assert(ax * ax == ux * ux && az * az == uz * uz) by (nonlinear_arith)
            requires
                ax == abs_s(ux as int),
                az == abs_s(uz as int),
        ;
        assert(0 <= ax * ax <= COORD_LIMIT * COORD_LIMIT && 0 <= az * az <= COORD_LIMIT
            * COORD_LIMIT) by (nonlinear_arith)
            requires
                0 <= ax <= COORD_LIMIT,
                0 <= az <= COORD_LIMIT,
        ;
        assert(ax >= 1 || az >= 1);
        assert(ax * ax + az * az >= 1) by (nonlinear_arith)
            requires
                0 <= ax,
                0 <= az,
                ax >= 1 || az >= 1,
        ;
    }
    let squ: u64 = (ax as u64) * (ax as u64) + (az as u64) * (az as u64);
    let n64: u64 = sqrt_ceil_u64(squ);
    let n: i64 = n64 as i64;
    proof {
        assert(n >= 1);
        assert(ax <= n && az <= n) by (nonlinear_arith)
            requires
                0 <= ax,
                0 <= az,
                1 <= n,
                ax * ax + az * az <= n * n,
        ;
    }
    let rx: i64 = mul_div_nonneg(ax, FX_ONE, n);
    let rz: i64 = mul_div_nonneg(az, FX_ONE, n);
    proof {
        lemma_norm_upper(ax as int, az as int, n as int, rx as int, rz as int);
        assert(x * x + z * z >= 1) by (nonlinear_arith)
            requires
                x != 0 || z != 0,
        ;
        if sq0 < FX_ONE * FX_ONE {
            assert(FX_ONE * FX_ONE <= ax * ax + az * az) by (nonlinear_arith)
                requires
                    ax * ax + az * az == (x * FX_ONE) * (x * FX_ONE) + (z * FX_ONE) * (z
                        * FX_ONE),
                    x * x + z * z >= 1,
                    FX_ONE == 10_000,
            ;
        }
        assert(FX_ONE <= n) by (nonlinear_arith)
            requires
                FX_ONE * FX_ONE <= ax * ax + az * az,
                ax * ax + az * az <= n * n,
                0 <= n,
                FX_ONE == 10_000,
        ;
        lemma_norm_lower(ax as int, az as int, n as int, rx as int, rz as int);
    }
    let ox: i64 = if ux < 0 {
        -rx
    } else {
        rx
    };
    let oz: i64 = if uz < 0 {
        -rz
    } else {
        rz
    };
    proof {
        assert(ox * ox == rx * rx && oz * oz == rz * rz) by (nonlinear_arith)
            requires
                ox == rx || ox == -rx,
                oz == rz || oz == -rz,
        ;
        assert(ox * x >= 0 && oz * z >= 0) by (nonlinear_arith)
            requires
                (x >= 0 ==> ux >= 0 && ox >= 0),
                (x < 0 ==> ux < 0 && ox <= 0),
                (z >= 0 ==> uz >= 0 && oz >= 0),
                (z < 0 ==> uz < 0 && oz <= 0),
        ;
        assert((ox == 0 && oz == 0) ==> ox * ox + oz * oz == 0) by (nonlinear_arith);
        assert(norm_input_s(x as int, z as int).0 == ux && norm_input_s(x as int, z as int).1
            == uz);
        assert(sq_norm_xz_s(ux as int, uz as int) == squ);
        assert(n as int == sqrt_ceil_s(squ as nat) as int);
        assert(scale_to_unit_s(ux as int, n as int) == ox);
        assert(scale_to_unit_s(uz as int, n as int) == oz);
        assert(normalize_xz_s(x as int, z as int).0 == ox && normalize_xz_s(x as int, z as int).1
            == oz);
    }
    (ox, oz)
}

} // verus!
