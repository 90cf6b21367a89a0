//! Autonomous behavior driver: a periodic random walk.
//!
//! Each creature advances a repeating interval timer. When the timer
//! completes, the driver samples a direction uniformly in the horizontal
//! square, normalizes it (zero maps to zero, not re-sampled), overwrites
//! the creature's intent and restarts the timer; strictly between two
//! completions the intent is left untouched.

use vstd::prelude::*;
use crate::fx::FX_ONE;
use crate::movement::MovementIntent;
use crate::vec3::{Vec3Fx, normalize_or_zero_xz, normalize_xz_s};

verus! {

/// Marker for an autonomous creature entity.
#[derive(Clone, Copy, PartialEq, Eq, Structural, Debug)]
pub struct Creature;

/// Longest duration or time delta, in microseconds, the timer accepts.
pub const TIME_LIMIT_US: u64 = 0x4000_0000_0000_0000;

/// The repeating interval timer of one creature: elapsed time against
/// the firing duration, both in microseconds.
#[derive(Clone, Copy, PartialEq, Eq, Structural, Debug)]
pub struct AutonomousMovement {
    pub elapsed_us: u64,
    pub duration_us: u64,
}

impl AutonomousMovement {
    /// The duration is positive and the elapsed time has not yet reached
    /// it.
    pub open spec fn wf(self) -> bool {
        &&& 0 < self.duration_us <= TIME_LIMIT_US
        &&& self.elapsed_us < self.duration_us
    }

    /// A fresh timer that will first fire after `duration_us`.
    pub fn new(duration_us: u64) -> (r: AutonomousMovement)
        requires
            0 < duration_us <= TIME_LIMIT_US,
        ensures
            r.wf(),
            r.duration_us == duration_us,
            r.elapsed_us == 0,
    {
        AutonomousMovement { elapsed_us: 0, duration_us }
    }
}

/// Relies on rand::random_range over the inclusive range `lo..=hi`: the
/// sample lies within the range. rand panics only on an empty range,
/// which the precondition excludes; nothing more is assumed of the
/// distribution.
#[verifier::external_body]
fn sample_uniform_i64(lo: i64, hi: i64) -> (r: i64)
    requires
        lo <= hi,
    ensures
        lo <= r <= hi,
{
    rand::random_range(lo..=hi)
}

/// One modelled step of the driver: the timer either accumulates the
/// delta, or fires, wraps the overshoot and replaces the direction with
/// the normalized sample.
pub open spec fn drive_step_s(
    elapsed: int,
    dir: (int, int),
    duration: int,
    delta: int,
    sample: (int, int),
) -> (int, (int, int)) {
    if elapsed + delta >= duration {
        ((elapsed + delta) % duration, normalize_xz_s(sample.0, sample.1))
    } else {
        (elapsed + delta, dir)
    }
}

/// The driver model folded over a sequence of time deltas, consuming one
/// sample per step.
pub open spec fn drive_run_s(
    elapsed: int,
    dir: (int, int),
    duration: int,
    deltas: Seq<int>,
    samples: Seq<(int, int)>,
) -> (int, (int, int))
    decreases deltas.len(),
{
    if deltas.len() == 0 {
        (elapsed, dir)
    } else {
        let prev = drive_run_s(elapsed, dir, duration, deltas.drop_last(), samples.drop_last());
        drive_step_s(prev.0, prev.1, duration, deltas.last(), samples.last())
    }
}

/// The total of a sequence of time deltas.
pub open spec fn sum_s(deltas: Seq<int>) -> int
    decreases deltas.len(),
{
    if deltas.len() == 0 {
        0
    } else {
        sum_s(deltas.drop_last()) + deltas.last()
    }
}

/// The driver changes intent only at a tick whose accumulated time
/// reaches the interval duration: strictly between two consecutive
/// firings — while the elapsed time plus everything that has arrived
/// stays short of the duration — the intent is constant and the timer
/// only accumulates.
pub proof fn lemma_intent_constant_between_firings(
    elapsed: int,
    dir: (int, int),
    duration: int,
    deltas: Seq<int>,
    samples: Seq<(int, int)>,
)
    requires
        0 <= elapsed,
        forall|i: int| 0 <= i < deltas.len() ==> deltas[i] >= 0,
        elapsed + sum_s(deltas) < duration,
    ensures
        drive_run_s(elapsed, dir, duration, deltas, samples) == (elapsed + sum_s(deltas), dir),
    decreases deltas.len(),
{
    if deltas.len() > 0 {
        assert(forall|i: int|
            0 <= i < deltas.drop_last().len() ==> #[trigger] deltas.drop_last()[i] >= 0);
        assert(deltas.last() >= 0);
        lemma_intent_constant_between_firings(
            elapsed,
            dir,
            duration,
            deltas.drop_last(),
            samples.drop_last(),
        );
    }
}

/// Advances one creature by `delta_us` microseconds of elapsed time.
/// Returns whether the timer fired. On a firing tick the intent is
/// overwritten with a fresh normalized random direction and the timer
/// keeps the overshoot; on every other tick the intent is untouched.
pub fn creature_autonomous_movement(
    state: &mut AutonomousMovement,
    intent: &mut MovementIntent,
    delta_us: u64,
) -> (fired: bool)
    requires
        old(state).wf(),
        delta_us <= TIME_LIMIT_US,
    ensures
        final(state).wf(),
        final(state).duration_us == old(state).duration_us,
        fired == (old(state).elapsed_us + delta_us >= old(state).duration_us),
        !fired ==> *final(intent) == *old(intent) && final(state).elapsed_us == old(
            state,
        ).elapsed_us + delta_us,
        fired ==> final(intent).wf() && final(intent).direction.y == 0 && final(state).elapsed_us
            == (old(state).elapsed_us + delta_us) % (old(state).duration_us as int),
        exists|sample: (i64, i64)|
            (-FX_ONE <= sample.0 <= FX_ONE && -FX_ONE <= sample.1 <= FX_ONE) && (
            final(state).elapsed_us as int, (
                final(intent).direction.x as int,
                final(intent).direction.z as int,
            )) == #[trigger] drive_step_s(
                old(state).elapsed_us as int,
                (old(intent).direction.x as int, old(intent).direction.z as int),
                old(state).duration_us as int,
                delta_us as int,
                (sample.0 as int, sample.1 as int),
            ),
{
    let total: u64 = state.elapsed_us + delta_us;
    if total >= state.duration_us {
        let sx = sample_uniform_i64(-FX_ONE, FX_ONE);
        let sz = sample_uniform_i64(-FX_ONE, FX_ONE);
        let d = normalize_or_zero_xz(sx, sz);
        intent.direction = Vec3Fx { x: d.0, y: 0, z: d.1 };
        state.elapsed_us = total % state.duration_us;
        proof {
            vstd::arithmetic::div_mod::lemma_mod_bound(total as int, state.duration_us as int);
            let sample = (sx, sz);
            assert((final(state).elapsed_us as int, (
                final(intent).direction.x as int,
                final(intent).direction.z as int,
            )) == drive_step_s(
                old(state).elapsed_us as int,
                (old(intent).direction.x as int, old(intent).direction.z as int),
                old(state).duration_us as int,
                delta_us as int,
                (sample.0 as int, sample.1 as int),
            ));
        }
        true
    } else {
        state.elapsed_us = total;
        proof {
            let sample = (0i64, 0i64);
            assert((final(state).elapsed_us as int, (
                final(intent).direction.x as int,
                final(intent).direction.z as int,
            )) == drive_step_s(
                old(state).elapsed_us as int,
                (old(intent).direction.x as int, old(intent).direction.z as int),
                old(state).duration_us as int,
                delta_us as int,
                (sample.0 as int, sample.1 as int),
            ));
        }
        false
    }
}

} // verus!
