//! Keyboard input sampling for the player: camera-relative intent.
//!
//! The sampler flattens the camera's forward and right vectors onto the
//! horizontal plane, normalizes each (a degenerate projection contributes
//! zero), accumulates the up-to-four directional keys, and normalizes the
//! sum, so diagonal input never exceeds unit speed.

use vstd::prelude::*;
use crate::movement::MovementIntent;
use crate::vec3::{Vec3Fx, normalize_or_zero_xz, normalize_xz_s};

verus! {

/// Marker for the player-controlled entity.
#[derive(Clone, Copy, PartialEq, Eq, Structural, Debug)]
pub struct Player;

/// The pressed state of the four directional keys on one frame.
#[derive(Clone, Copy, PartialEq, Eq, Structural, Debug)]
pub struct DirectionalKeys {
    pub forward: bool,
    pub back: bool,
    pub left: bool,
    pub right: bool,
}

/// The signed weight a pair of opposing keys contributes: plus one,
/// minus one, or zero when both or neither are held.
pub open spec fn key_weight_s(pos: bool, neg: bool) -> int {
    (if pos {
        1int
    } else {
        0int
    }) - (if neg {
        1int
    } else {
        0int
    })
}

/// What the input sampler returns: the normalized sum of the flattened,
/// normalized camera axes weighted by the directional keys.
pub open spec fn sample_intent_s(fwd: Vec3Fx, rgt: Vec3Fx, keys: DirectionalKeys) -> (int, int) {
    let f = normalize_xz_s(fwd.x as int, fwd.z as int);
    let r = normalize_xz_s(rgt.x as int, rgt.z as int);
    let wf = key_weight_s(keys.forward, keys.back);
    let wr = key_weight_s(keys.right, keys.left);
    normalize_xz_s(wf * f.0 + wr * r.0, wf * f.1 + wr * r.1)
}

/// Samples the player's movement intent from the camera's world axes and
/// the directional keys. The output direction always has magnitude zero
/// or one (up to the fixed-point quantum): opposing keys cancel, and a
/// diagonal is normalized back onto the unit circle.
pub fn handle_keyboard_input(camera_forward: &Vec3Fx, camera_right: &Vec3Fx, keys: DirectionalKeys)
    -> (r: MovementIntent)
    requires
        camera_forward.bounded(),
        camera_right.bounded(),
    ensures
        r.direction.x == sample_intent_s(*camera_forward, *camera_right, keys).0,
        r.direction.z == sample_intent_s(*camera_forward, *camera_right, keys).1,
        r.direction.y == 0,
        r.wf(),
{
    let f = normalize_or_zero_xz(camera_forward.x, camera_forward.z);
    let rr = normalize_or_zero_xz(camera_right.x, camera_right.z);
    let mut dx: i64 = 0;
    let mut dz: i64 = 0;
    if keys.forward {
        dx = dx + f.0;
        dz = dz + f.1;
    }
    if keys.back {
        dx = dx - f.0;
        dz = dz - f.1;
    }
    if keys.left {
        dx = dx - rr.0;
        dz = dz - rr.1;
    }
    if keys.right {
        dx = dx + rr.0;
        dz = dz + rr.1;
    }
    proof {
        let wf = key_weight_s(keys.forward, keys.back);
        let wr = key_weight_s(keys.right, keys.left);
        assert(dx == wf * (f.0 as int) + wr * (rr.0 as int) && dz == wf * (f.1 as int) + wr * (
        rr.1 as int)) by (nonlinear_arith)
            requires
                wf == key_weight_s(keys.forward, keys.back),
                wr == key_weight_s(keys.right, keys.left),
                dx == (if keys.forward {
                    f.0 as int
                } else {
                    0int
                }) - (if keys.back {
                    f.0 as int
                } else {
                    0int
                }) - (if keys.left {
                    rr.0 as int
                } else {
                    0int
                }) + (if keys.right {
                    rr.0 as int
                } else {
                    0int
                }),
                dz == (if keys.forward {
                    f.1 as int
                } else {
                    0int
                }) - (if keys.back {
                    f.1 as int
                } else {
                    0int
                }) - (if keys.left {
                    rr.1 as int
                } else {
                    0int
                }) + (if keys.right {
                    rr.1 as int
                } else {
                    0int
                }),
        ;
    }
    let d = normalize_or_zero_xz(dx, dz);
    MovementIntent { direction: Vec3Fx { x: d.0, y: 0, z: d.1 } }
}

} // verus!
