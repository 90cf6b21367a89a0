//! Intent-based locomotion: converting a desired horizontal direction and
//! a movement profile into the corrective force handed to the physics
//! collaborator, together with the proof that repeatedly applying that
//! force drives the velocity monotonically toward the target.

use vstd::prelude::*;
use crate::fx::{FX_ONE, abs_s, fx_mul, fx_mul_s, lemma_fx_mul_s_parts};
use crate::vec3::Vec3Fx;

verus! {

/// Largest speed or acceleration gain a movement profile may carry.
pub const PROFILE_LIMIT: i64 = 100_000_000;

/// Largest velocity component the locomotion controller accepts.
pub const VEL_LIMIT: i64 = 100_000_000;

/// The desired horizontal movement direction of one entity, written once
/// per tick by exactly one producer.
#[derive(Clone, Copy, PartialEq, Eq, Structural, Debug)]
pub struct MovementIntent {
    pub direction: Vec3Fx,
}

impl MovementIntent {
    /// The direction is the zero vector or a horizontal unit vector.
    pub open spec fn wf(self) -> bool {
        self.direction.is_unit_or_zero_xz()
    }
}

impl Default for MovementIntent {
    /// A fresh entity wants to go nowhere.
    fn default() -> (r: MovementIntent)
        ensures
            r.direction.x == 0,
            r.direction.y == 0,
            r.direction.z == 0,
            r.wf(),
    {
        MovementIntent { direction: Vec3Fx { x: 0, y: 0, z: 0 } }
    }
}

/// The movement profile of one entity: top speed and acceleration gain,
/// immutable after spawn.
#[derive(Clone, Copy, PartialEq, Eq, Structural, Debug)]
pub struct MovementStats {
    pub speed: i64,
    pub acceleration: i64,
}

impl MovementStats {
    /// Both parameters are positive and within the machine bound.
    pub open spec fn wf(self) -> bool {
        &&& 0 < self.speed <= PROFILE_LIMIT
        &&& 0 < self.acceleration <= PROFILE_LIMIT
    }
}

/// The velocity the profile asks for along one axis: direction times top
/// speed.
pub open spec fn target_velocity_s(dir: int, speed: int) -> int {
    fx_mul_s(dir, speed)
}

/// The corrective force along one axis: the velocity error scaled by the
/// acceleration gain.
pub open spec fn force_s(dir: int, speed: int, accel: int, vel: int) -> int {
    fx_mul_s(target_velocity_s(dir, speed) - vel, accel)
}

/// One modelled physics step along one axis: the collaborator integrates
/// the published force with a combined factor `gain` (time step over
/// mass, fixed-point), so the velocity moves by `force * gain`.
pub open spec fn step_velocity_s(v: int, target: int, accel: int, gain: int) -> int {
    v + fx_mul_s(fx_mul_s(target - v, accel), gain)
}

/// The velocity after `n` modelled steps from `v0`.
pub open spec fn velocity_trace_s(v0: int, target: int, accel: int, gain: int, n: nat) -> int
    decreases n,
{
    if n == 0 {
        v0
    } else {
        step_velocity_s(
            velocity_trace_s(v0, target, accel, gain, (n - 1) as nat),
            target,
            accel,
            gain,
        )
    }
}

/// Computes the corrective force the locomotion controller publishes for
/// one entity on one fixed tick: the horizontal velocity error toward
/// `direction * speed`, scaled by the acceleration gain, with the
/// vertical component forced to zero. The result overwrites the
/// entity's force accumulator; nothing persists into the next tick.
pub fn apply_movement_intent(intent: &MovementIntent, stats: &MovementStats, velocity: &Vec3Fx) -> (f:
    Vec3Fx)
    requires
        intent.wf(),
        stats.wf(),
        -VEL_LIMIT <= velocity.x <= VEL_LIMIT,
        -VEL_LIMIT <= velocity.z <= VEL_LIMIT,
    ensures
        f.x == force_s(
            intent.direction.x as int,
            stats.speed as int,
            stats.acceleration as int,
            velocity.x as int,
        ),
        f.z == force_s(
            intent.direction.z as int,
            stats.speed as int,
            stats.acceleration as int,
            velocity.z as int,
        ),
        f.y == 0,
{
    proof {
        crate::vec3::lemma_unit_component_bounds(intent.direction);
        lemma_fx_mul_s_parts(intent.direction.x as int, stats.speed as int);
        lemma_fx_mul_s_parts(intent.direction.z as int, stats.speed as int);
        assert(abs_s(intent.direction.x * stats.speed) <= FX_ONE * PROFILE_LIMIT && abs_s(
            intent.direction.z * stats.speed,
        ) <= FX_ONE * PROFILE_LIMIT) by (nonlinear_arith)
            requires
                abs_s(intent.direction.x as int) <= FX_ONE,
                abs_s(intent.direction.z as int) <= FX_ONE,
                0 < stats.speed <= PROFILE_LIMIT,
        ;
        vstd::arithmetic::div_mod::lemma_div_is_ordered(
            abs_s(intent.direction.x * stats.speed),
            FX_ONE * PROFILE_LIMIT,
            FX_ONE as int,
        );
        vstd::arithmetic::div_mod::lemma_div_is_ordered(
            abs_s(intent.direction.z * stats.speed),
            FX_ONE * PROFILE_LIMIT,
            FX_ONE as int,
        );
    }
    let tx: i64 = fx_mul(intent.direction.x, stats.speed);
    let tz: i64 = fx_mul(intent.direction.z, stats.speed);
    let ex: i64 = tx - velocity.x;
    let ez: i64 = tz - velocity.z;
    proof {
        assert(abs_s(ex * stats.acceleration) <= 300_000_000 * PROFILE_LIMIT && abs_s(
            ez * stats.acceleration,
        ) <= 300_000_000 * PROFILE_LIMIT) by (nonlinear_arith)
            requires
                -300_000_000 <= ex <= 300_000_000,
                -300_000_000 <= ez <= 300_000_000,
                0 < stats.acceleration <= PROFILE_LIMIT,
        ;
    }
    let fx_c: i64 = fx_mul(ex, stats.acceleration);
    let fz_c: i64 = fx_mul(ez, stats.acceleration);
    Vec3Fx { x: fx_c, y: 0, z: fz_c }
}

/// One modelled step never moves the velocity past the target and never
/// increases the error: the magnitude of `target - v` is nonincreasing
/// and its sign never flips, as long as the combined gain
/// `accel * gain` stays at or below one.
pub proof fn lemma_step_approaches(v: int, target: int, accel: int, gain: int)
    requires
        0 <= accel,
        0 <= gain,
        accel * gain <= FX_ONE * FX_ONE,
    ensures
        abs_s(target - step_velocity_s(v, target, accel, gain)) <= abs_s(target - v),
        (target - step_velocity_s(v, target, accel, gain)) * (target - v) >= 0,
{
    let s = FX_ONE as int;
    let e = target - v;
    let m = fx_mul_s(e, accel);
    let d = fx_mul_s(m, gain);
    lemma_fx_mul_s_parts(e, accel);
    lemma_fx_mul_s_parts(m, gain);
    let ea = abs_s(e);
    let ma = abs_s(m);
    let da = abs_s(d);
    assert(abs_s(e * accel) == ea * accel && abs_s(m * gain) == ma * gain) by (nonlinear_arith)
        requires
            0 <= accel,
            0 <= gain,
            ea == abs_s(e),
            ma == abs_s(m),
    ;
    vstd::arithmetic::div_mod::lemma_fundamental_div_mod(ea * accel, s);
    vstd::arithmetic::div_mod::lemma_mod_bound(ea * accel, s);
    vstd::arithmetic::div_mod::lemma_fundamental_div_mod(ma * gain, s);
    vstd::arithmetic::div_mod::lemma_mod_bound(ma * gain, s);
    assert(da <= ea) by (nonlinear_arith)
        requires
            s == 10_000,
            0 <= ea,
            0 <= ma,
            0 <= da,
            0 <= accel,
            0 <= gain,
            ma * s <= ea * accel,
            da * s <= ma * gain,
            accel * gain <= s * s,
    ;
    assert((e >= 0 ==> m >= 0) && (e <= 0 ==> m <= 0)) by (nonlinear_arith)
        requires
            0 <= accel,
            m * (e * accel) >= 0,
            e * accel == 0 ==> m == 0,
    ;
    assert((m >= 0 ==> d >= 0) && (m <= 0 ==> d <= 0)) by (nonlinear_arith)
        requires
            0 <= gain,
            d * (m * gain) >= 0,
            m * gain == 0 ==> d == 0,
    ;
    assert((target - step_velocity_s(v, target, accel, gain)) == e - d);
    assert((e - d) * e >= 0) by (nonlinear_arith)
        requires
            (e >= 0 && e - d >= 0) || (e <= 0 && e - d <= 0),
    ;
}

/// While the error is still above the quantization band, a modelled step
/// makes strict progress: the error magnitude drops by at least one
/// quantum.
pub proof fn lemma_step_progress(v: int, target: int, accel: int, gain: int)
    requires
        0 <= accel,
        0 <= gain,
        accel * gain <= FX_ONE * FX_ONE,
        abs_s(target - v) * accel * gain >= FX_ONE * FX_ONE + gain * FX_ONE,
    ensures
        abs_s(target - step_velocity_s(v, target, accel, gain)) < abs_s(target - v),
{
    let s = FX_ONE as int;
    let e = target - v;
    let m = fx_mul_s(e, accel);
    let d = fx_mul_s(m, gain);
    lemma_fx_mul_s_parts(e, accel);
    lemma_fx_mul_s_parts(m, gain);
    let ea = abs_s(e);
    let ma = abs_s(m);
    let da = abs_s(d);
    assert(abs_s(e * accel) == ea * accel && abs_s(m * gain) == ma * gain) by (nonlinear_arith)
        requires
            0 <= accel,
            0 <= gain,
            ea == abs_s(e),
            ma == abs_s(m),
    ;
    vstd::arithmetic::div_mod::lemma_fundamental_div_mod(ea * accel, s);
    vstd::arithmetic::div_mod::lemma_mod_bound(ea * accel, s);
    vstd::arithmetic::div_mod::lemma_fundamental_div_mod(ma * gain, s);
    vstd::arithmetic::div_mod::lemma_mod_bound(ma * gain, s);
    assert(da >= 1) by (nonlinear_arith)
        requires
            s == 10_000,
            0 <= ea,
            0 <= ma,
            0 <= da,
            0 <= gain,
            ma * s > ea * accel - s,
            da * s > ma * gain - s,
            ea * accel * gain >= s * s + gain * s,
    ;
    assert(ea >= 1) by (nonlinear_arith)
        requires
            s == 10_000,
            0 <= ea,
            0 <= accel,
            0 <= gain,
            ea * accel * gain >= s * s + gain * s,
    ;
    lemma_step_approaches(v, target, accel, gain);
    assert((e >= 0 ==> m >= 0) && (e <= 0 ==> m <= 0)) by (nonlinear_arith)
        requires
            0 <= accel,
            m * (e * accel) >= 0,
            e * accel == 0 ==> m == 0,
    ;
    assert((m >= 0 ==> d >= 0) && (m <= 0 ==> d <= 0)) by (nonlinear_arith)
        requires
            0 <= gain,
            d * (m * gain) >= 0,
            m * gain == 0 ==> d == 0,
    ;
    let e2 = target - step_velocity_s(v, target, accel, gain);
    assert(e2 == e - d);
    assert(abs_s(e2) < abs_s(e)) by (nonlinear_arith)
        requires
            e2 == e - d,
            abs_s(d) >= 1,
            abs_s(e) >= 1,
            e2 * e >= 0,
            abs_s(e2) <= abs_s(e),
            (e >= 0 ==> d >= 0),
            (e <= 0 ==> d <= 0),
    ;
}

/// Repeated application of the locomotion controller, as integrated by
/// the physics collaborator, drives the velocity monotonically toward
/// `target`: along any modelled trajectory the error magnitude is
/// nonincreasing and the velocity never crosses to the other side of the
/// target.
pub proof fn lemma_locomotion_converges(
    v0: int,
    target: int,
    accel: int,
    gain: int,
    i: nat,
    j: nat,
)
    requires
        0 <= accel,
        0 <= gain,
        accel * gain <= FX_ONE * FX_ONE,
        i <= j,
    ensures
        abs_s(target - velocity_trace_s(v0, target, accel, gain, j)) <= abs_s(
            target - velocity_trace_s(v0, target, accel, gain, i),
        ),
        (target - velocity_trace_s(v0, target, accel, gain, j)) * (target - velocity_trace_s(
            v0,
            target,
            accel,
            gain,
            i,
        )) >= 0,
    decreases j,
{
    let ei = target - velocity_trace_s(v0, target, accel, gain, i);
    if i == j {
        assert(ei * ei >= 0) by (nonlinear_arith);
    } else {
        lemma_locomotion_converges(v0, target, accel, gain, i, (j - 1) as nat);
        let ep = target - velocity_trace_s(v0, target, accel, gain, (j - 1) as nat);
        lemma_step_approaches(
            velocity_trace_s(v0, target, accel, gain, (j - 1) as nat),
            target,
            accel,
            gain,
        );
        let ej = target - velocity_trace_s(v0, target, accel, gain, j);
        assert(ej * ei >= 0) by (nonlinear_arith)
            requires
                ej * ep >= 0,
                ep * ei >= 0,
                abs_s(ej) <= abs_s(ep),
        ;
    }
}

/// Convergence in the horizontal plane: along any pair of modelled
/// trajectories driven toward the planar target velocity, the squared
/// planar distance to the target is nonincreasing over time.
pub proof fn lemma_locomotion_converges_plane(
    v0x: int,
    v0z: int,
    tx: int,
    tz: int,
    accel: int,
    gain: int,
    i: nat,
    j: nat,
)
    requires
        0 <= accel,
        0 <= gain,
        accel * gain <= FX_ONE * FX_ONE,
        i <= j,
    ensures
        (tx - velocity_trace_s(v0x, tx, accel, gain, j)) * (tx - velocity_trace_s(
            v0x,
            tx,
            accel,
            gain,
            j,
        )) + (tz - velocity_trace_s(v0z, tz, accel, gain, j)) * (tz - velocity_trace_s(
            v0z,
            tz,
            accel,
            gain,
            j,
        )) <= (tx - velocity_trace_s(v0x, tx, accel, gain, i)) * (tx - velocity_trace_s(
            v0x,
            tx,
            accel,
            gain,
            i,
        )) + (tz - velocity_trace_s(v0z, tz, accel, gain, i)) * (tz - velocity_trace_s(
            v0z,
            tz,
            accel,
            gain,
            i,
        )),
{
    lemma_locomotion_converges(v0x, tx, accel, gain, i, j);
    lemma_locomotion_converges(v0z, tz, accel, gain, i, j);
    let exj = tx - velocity_trace_s(v0x, tx, accel, gain, j);
    let ezj = tz - velocity_trace_s(v0z, tz, accel, gain, j);
    let exi = tx - velocity_trace_s(v0x, tx, accel, gain, i);
    let ezi = tz - velocity_trace_s(v0z, tz, accel, gain, i);
    assert(exj * exj + ezj * ezj <= exi * exi + ezi * ezi) by (nonlinear_arith)
        requires
            abs_s(exj) <= abs_s(exi),
            abs_s(ezj) <= abs_s(ezi),
    ;
}

} // verus!
