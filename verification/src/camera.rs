//! Orbital follow-camera controller.
//!
//! The camera orbits a focus point derived from the followed body at a
//! yaw/pitch/radius controlled by pointer and scroll input. Pointer
//! motion is consumed only while the cursor is captured; scroll zooms
//! regardless. The radius is clamped to `[RADIUS_MIN, RADIUS_MAX]` and
//! the pitch to `[-MAX_PITCH_FX, MAX_PITCH_FX]` after every update. The
//! pose must be computed after the physics collaborator has published
//! this tick's transforms, or the camera lags the body by one frame.

use vstd::prelude::*;
use crate::cursor::CursorCaptureState;
use crate::fx::{
    FX_ONE,
    HALF_PI_FX,
    PI_FX,
    TWO_PI_FX,
    abs_s,
    clamp_i64,
    clamp_s,
    fx_mul,
    fx_mul_s,
    lemma_fx_mul_s_bound,
    mul_div_nonneg,
    wrap_angle,
};
use crate::vec3::Vec3Fx;

verus! {

/// Closest the camera may zoom in, in fixed-point world units.
pub const RADIUS_MIN: i64 = 20_000;

/// Farthest the camera may zoom out.
pub const RADIUS_MAX: i64 = 200_000;

/// The pitch clamp: a hair under a quarter turn, so the camera never
/// looks straight up or down.
pub const MAX_PITCH_FX: i64 = 15_208;

/// Radians of orbit per fixed-point pixel of pointer motion.
pub const MOUSE_SENSITIVITY: i64 = 20;

/// World units of radius per fixed-point line of scroll.
pub const ZOOM_SENSITIVITY: i64 = 2_000;

/// The fixed upward offset from the followed body to the focus point:
/// the camera targets roughly eye height, not the feet.
pub const EYE_OFFSET: i64 = 10_000;

/// The orbit radius a fresh camera starts at.
pub const DEFAULT_RADIUS: i64 = 50_000;

/// The pitch a fresh camera starts at.
pub const DEFAULT_PITCH: i64 = 4_000;

/// Largest world coordinate of a followed body.
pub const WORLD_LIMIT: i64 = 900_000_000;

/// Largest single pointer-motion or scroll delta accepted per event.
pub const EVENT_LIMIT: i64 = 10_000_000;

/// Most input events accepted per frame.
pub const EVENT_COUNT_LIMIT: usize = 100_000;

/// One pointer-motion event, in fixed-point pixels.
#[derive(Clone, Copy, PartialEq, Eq, Structural, Debug)]
pub struct MotionDelta {
    pub dx: i64,
    pub dy: i64,
}

/// The orbit state of the single follow camera: focus point, orbit
/// radius, yaw and pitch. The focus is recomputed from the followed
/// body every tick and never authoritative across ticks.
#[derive(Clone, Copy, PartialEq, Eq, Structural, Debug)]
pub struct OrbitCameraState {
    pub focus: Vec3Fx,
    pub radius: i64,
    pub yaw: i64,
    pub pitch: i64,
}

/// The camera's world pose: its position, and the focus point it looks
/// at. The orientation is the look-at rotation from `position` toward
/// `target` with world-up as the up reference, applied by the renderer.
#[derive(Clone, Copy, PartialEq, Eq, Structural, Debug)]
pub struct CameraPose {
    pub position: Vec3Fx,
    pub target: Vec3Fx,
}

impl OrbitCameraState {
    /// Radius within its clamp, pitch within its clamp, yaw wrapped into
    /// one turn, focus within the world.
    pub open spec fn wf(self) -> bool {
        &&& RADIUS_MIN <= self.radius <= RADIUS_MAX
        &&& -MAX_PITCH_FX <= self.pitch <= MAX_PITCH_FX
        &&& 0 <= self.yaw < TWO_PI_FX
        &&& self.focus.bounded()
    }
}

impl Default for OrbitCameraState {
    /// A fresh camera: focus at the origin, five units out, level yaw,
    /// gently pitched down onto the body.
    fn default() -> (r: OrbitCameraState)
        ensures
            r.focus.x == 0 && r.focus.y == 0 && r.focus.z == 0,
            r.radius == DEFAULT_RADIUS,
            r.yaw == 0,
            r.pitch == DEFAULT_PITCH,
            r.wf(),
    {
        OrbitCameraState {
            focus: Vec3Fx { x: 0, y: 0, z: 0 },
            radius: DEFAULT_RADIUS,
            yaw: 0,
            pitch: DEFAULT_PITCH,
        }
    }
}

/// The quadratic half-wave approximation of the sine on `[0, PI_FX]`,
/// clamped into `[0, FX_ONE]`; exact at `0`, `PI_FX / 2` and `PI_FX`.
pub open spec fn sin_half_s(x: int) -> int {
    let u = x * ((PI_FX as int) - x);
    clamp_s(
        (16 * u * (FX_ONE as int)) / (5 * (PI_FX as int) * (PI_FX as int) - 4 * u),
        0,
        FX_ONE as int,
    )
}

/// The fixed-point sine of an angle in fixed-point radians: the angle is
/// wrapped into one turn and the half-wave approximation applied with
/// the half's sign.
pub open spec fn sin_s(a: int) -> int {
    let w = a % (TWO_PI_FX as int);
    if w <= PI_FX {
        sin_half_s(w)
    } else {
        -sin_half_s(w - (PI_FX as int))
    }
}

/// The fixed-point cosine: the sine a quarter turn ahead.
pub open spec fn cos_s(a: int) -> int {
    sin_s(a + (HALF_PI_FX as int))
}

/// The approximation is exact at the quarter points: the sine of zero,
/// a quarter turn and a half turn, and so the cosine of zero.
pub proof fn lemma_trig_quarter_points()
    ensures
        sin_s(0) == 0,
        sin_s(HALF_PI_FX as int) == FX_ONE,
        sin_s(PI_FX as int) == 0,
        cos_s(0) == FX_ONE,
{
    vstd::arithmetic::div_mod::lemma_small_mod(0nat, TWO_PI_FX as nat);
    vstd::arithmetic::div_mod::lemma_small_mod(HALF_PI_FX as nat, TWO_PI_FX as nat);
    vstd::arithmetic::div_mod::lemma_small_mod(PI_FX as nat, TWO_PI_FX as nat);
    assert(sin_half_s(0) == 0);
    assert(sin_half_s(PI_FX as int) == 0);
    assert(sin_half_s(HALF_PI_FX as int) == FX_ONE) by {
        let u = (HALF_PI_FX as int) * ((PI_FX as int) - (HALF_PI_FX as int));
        assert(u == 246_741_264);
        assert(5 * (PI_FX as int) * (PI_FX as int) - 4 * u == 3_947_860_224);
        assert(16 * u * (FX_ONE as int) == 39_478_602_240_000);
        vstd::arithmetic::div_mod::lemma_div_multiples_vanish(10_000, 3_947_860_224);
        assert(3_947_860_224int * 10_000 == 39_478_602_240_000int);
    }
}

/// The half-wave approximation, on `[0, PI_FX]`.
fn sin_half(x: i64) -> (r: i64)
    requires
        0 <= x <= PI_FX,
    ensures
        r == sin_half_s(x as int),
        0 <= r <= FX_ONE,
{
    proof {
        assert(0 <= x * (PI_FX - x) && 4 * (x * (PI_FX - x)) <= PI_FX * PI_FX)
            by (nonlinear_arith)
            requires
                0 <= x <= PI_FX,
        ;
    }
    let u: i64 = x * (PI_FX - x);
    let den: i64 = 5 * (PI_FX * PI_FX) - 4 * u;
    let q: i64 = mul_div_nonneg(16 * u, FX_ONE, den);
    clamp_i64(q, 0, FX_ONE)
}

/// The fixed-point sine of any angle in fixed-point radians.
pub fn sin_fx(a: i64) -> (r: i64)
    requires
        a != i64::MIN,
    ensures
        r == sin_s(a as int),
        -FX_ONE <= r <= FX_ONE,
{
    let w = wrap_angle(a);
    if w <= PI_FX {
        sin_half(w)
    } else {
        let r2 = sin_half(w - PI_FX);
        -r2
    }
}

/// The fixed-point cosine of any angle in fixed-point radians.
pub fn cos_fx(a: i64) -> (r: i64)
    requires
        -1_000_000_000_000 <= a <= 1_000_000_000_000,
    ensures
        r == cos_s(a as int),
        -FX_ONE <= r <= FX_ONE,
{
    sin_fx(a + HALF_PI_FX)
}

/// The accumulated yaw change of a frame's pointer motion.
pub open spec fn yaw_sum_s(s: Seq<MotionDelta>) -> int
    decreases s.len(),
{
    if s.len() == 0 {
        0
    } else {
        yaw_sum_s(s.drop_last()) + fx_mul_s(s.last().dx as int, MOUSE_SENSITIVITY as int)
    }
}

/// The accumulated pitch change of a frame's pointer motion.
pub open spec fn pitch_sum_s(s: Seq<MotionDelta>) -> int
    decreases s.len(),
{
    if s.len() == 0 {
        0
    } else {
        pitch_sum_s(s.drop_last()) + fx_mul_s(s.last().dy as int, MOUSE_SENSITIVITY as int)
    }
}

/// The accumulated radius change of a frame's scroll events.
pub open spec fn zoom_sum_s(s: Seq<i64>) -> int
    decreases s.len(),
{
    if s.len() == 0 {
        0
    } else {
        zoom_sum_s(s.drop_last()) + fx_mul_s(s.last() as int, ZOOM_SENSITIVITY as int)
    }
}

/// Consumes one frame of pointer and scroll input. While captured,
/// horizontal motion turns the yaw against the pointer and vertical
/// motion tilts the pitch with it (the vertical sign is a tuning
/// choice, not a law); while free, pointer motion is ignored. Scroll
/// zooms regardless of capture. The radius ends inside
/// `[RADIUS_MIN, RADIUS_MAX]` and the pitch inside
/// `[-MAX_PITCH_FX, MAX_PITCH_FX]` after every update, whatever the
/// event sequence was.
pub fn handle_camera_input(
    cam: &mut OrbitCameraState,
    motion: &Vec<MotionDelta>,
    wheel: &Vec<i64>,
    capture: CursorCaptureState,
)
    requires
        old(cam).wf(),
        motion@.len() <= EVENT_COUNT_LIMIT,
        wheel@.len() <= EVENT_COUNT_LIMIT,
        forall|i: int|
            0 <= i < motion@.len() ==> -EVENT_LIMIT <= #[trigger] motion@[i].dx <= EVENT_LIMIT
                && -EVENT_LIMIT <= motion@[i].dy <= EVENT_LIMIT,
        forall|i: int| 0 <= i < wheel@.len() ==> -EVENT_LIMIT <= #[trigger] wheel@[i] <= EVENT_LIMIT,
    ensures
        final(cam).wf(),
        final(cam).focus == old(cam).focus,
        RADIUS_MIN <= final(cam).radius <= RADIUS_MAX,
        -MAX_PITCH_FX <= final(cam).pitch <= MAX_PITCH_FX,
        final(cam).radius == clamp_s(
            old(cam).radius - zoom_sum_s(wheel@),
            RADIUS_MIN as int,
            RADIUS_MAX as int,
        ),
        capture == CursorCaptureState::Captured ==> final(cam).yaw == (old(cam).yaw - yaw_sum_s(
            motion@,
        )) % (TWO_PI_FX as int) && final(cam).pitch == clamp_s(
            old(cam).pitch + pitch_sum_s(motion@),
            -MAX_PITCH_FX as int,
            MAX_PITCH_FX as int,
        ),
        capture != CursorCaptureState::Captured ==> final(cam).yaw == old(cam).yaw
            && final(cam).pitch == old(cam).pitch,
{
    if capture == CursorCaptureState::Captured {
        let mut yaw_acc: i64 = 0;
        let mut pitch_acc: i64 = 0;
        let mut i: usize = 0;
        while i < motion.len()
            invariant
                i <= motion@.len(),
                motion@.len() <= EVENT_COUNT_LIMIT,
                forall|k: int|
                    0 <= k < motion@.len() ==> -EVENT_LIMIT <= #[trigger] motion@[k].dx
                        <= EVENT_LIMIT && -EVENT_LIMIT <= motion@[k].dy <= EVENT_LIMIT,
                yaw_acc == yaw_sum_s(motion@.take(i as int)),
                pitch_acc == pitch_sum_s(motion@.take(i as int)),
                -20_000 * (i as int) <= yaw_acc <= 20_000 * (i as int),
                -20_000 * (i as int) <= pitch_acc <= 20_000 * (i as int),
            decreases motion@.len() - i,
        {
            let d = motion[i];
            proof {
                lemma_fx_mul_s_bound(d.dx as int, MOUSE_SENSITIVITY as int, EVENT_LIMIT as int, 20);
                lemma_fx_mul_s_bound(d.dy as int, MOUSE_SENSITIVITY as int, EVENT_LIMIT as int, 20);
                assert(motion@.take(i + 1).drop_last() =~= motion@.take(i as int));
                assert(motion@.take(i + 1).last() == motion@[i as int]);
            }
            yaw_acc = yaw_acc + fx_mul(d.dx, MOUSE_SENSITIVITY);
            pitch_acc = pitch_acc + fx_mul(d.dy, MOUSE_SENSITIVITY);
            i = i + 1;
        }
        proof {
            assert(motion@.take(motion@.len() as int) =~= motion@);
        }
        cam.yaw = wrap_angle(cam.yaw - yaw_acc);
        cam.pitch = clamp_i64(cam.pitch + pitch_acc, -MAX_PITCH_FX, MAX_PITCH_FX);
    }
    let mut zoom_acc: i64 = 0;
    let mut j: usize = 0;
    while j < wheel.len()
        invariant
            j <= wheel@.len(),
            wheel@.len() <= EVENT_COUNT_LIMIT,
            forall|k: int| 0 <= k < wheel@.len() ==> -EVENT_LIMIT <= #[trigger] wheel@[k] <= EVENT_LIMIT,
            zoom_acc == zoom_sum_s(wheel@.take(j as int)),
            -2_000_000 * (j as int) <= zoom_acc <= 2_000_000 * (j as int),
        decreases wheel@.len() - j,
    {
        let w = wheel[j];
        proof {
            lemma_fx_mul_s_bound(w as int, ZOOM_SENSITIVITY as int, EVENT_LIMIT as int, 2_000);
            assert(wheel@.take(j + 1).drop_last() =~= wheel@.take(j as int));
            assert(wheel@.take(j + 1).last() == wheel@[j as int]);
        }
        zoom_acc = zoom_acc + fx_mul(w, ZOOM_SENSITIVITY);
        j = j + 1;
    }
    proof {
        assert(wheel@.take(wheel@.len() as int) =~= wheel@);
    }
    cam.radius = clamp_i64(cam.radius - zoom_acc, RADIUS_MIN, RADIUS_MAX);
}

/// Recomputes the focus from the followed body's position and produces
/// the camera's world pose: the canonical backward offset, pitched then
/// yawed and scaled by the radius, added to the focus. Must run after
/// the physics collaborator has published this tick's transforms.
pub fn update_camera_transform(cam: &mut OrbitCameraState, body_position: Vec3Fx) -> (pose:
    CameraPose)
    requires
        old(cam).wf(),
        -WORLD_LIMIT <= body_position.x <= WORLD_LIMIT,
        -WORLD_LIMIT <= body_position.y <= WORLD_LIMIT,
        -WORLD_LIMIT <= body_position.z <= WORLD_LIMIT,
    ensures
        final(cam).wf(),
        final(cam).radius == old(cam).radius,
        final(cam).yaw == old(cam).yaw,
        final(cam).pitch == old(cam).pitch,
        final(cam).focus.x == body_position.x,
        final(cam).focus.y == body_position.y + EYE_OFFSET,
        final(cam).focus.z == body_position.z,
        pose.target == final(cam).focus,
        pose.position.x == final(cam).focus.x + fx_mul_s(
            fx_mul_s(old(cam).radius as int, cos_s(old(cam).pitch as int)),
            sin_s(old(cam).yaw as int),
        ),
        pose.position.y == final(cam).focus.y + fx_mul_s(
            old(cam).radius as int,
            sin_s(old(cam).pitch as int),
        ),
        pose.position.z == final(cam).focus.z + fx_mul_s(
            fx_mul_s(old(cam).radius as int, cos_s(old(cam).pitch as int)),
            cos_s(old(cam).yaw as int),
        ),
{
    cam.focus = Vec3Fx {
        x: body_position.x,
        y: body_position.y + EYE_OFFSET,
        z: body_position.z,
    };
    let sy = sin_fx(cam.yaw);
    let cy = cos_fx(cam.yaw);
    let sp = sin_fx(cam.pitch);
    let cp = cos_fx(cam.pitch);
    proof {
        lemma_fx_mul_s_bound(cam.radius as int, cp as int, RADIUS_MAX as int, FX_ONE as int);
        lemma_fx_mul_s_bound(cam.radius as int, sp as int, RADIUS_MAX as int, FX_ONE as int);
        assert(abs_s(cam.radius * cp) <= RADIUS_MAX * FX_ONE && abs_s(cam.radius * sp)
            <= RADIUS_MAX * FX_ONE) by (nonlinear_arith)
            requires
                RADIUS_MIN <= cam.radius <= RADIUS_MAX,
                -FX_ONE <= cp <= FX_ONE,
                -FX_ONE <= sp <= FX_ONE,
        ;
    }
    let h = fx_mul(cam.radius, cp);
    let oy = fx_mul(cam.radius, sp);
    proof {
        lemma_fx_mul_s_bound(h as int, sy as int, RADIUS_MAX as int, FX_ONE as int);
        lemma_fx_mul_s_bound(h as int, cy as int, RADIUS_MAX as int, FX_ONE as int);
        assert(abs_s(h * sy) <= RADIUS_MAX * FX_ONE && abs_s(h * cy) <= RADIUS_MAX * FX_ONE)
            by (nonlinear_arith)
            requires
                -RADIUS_MAX <= h <= RADIUS_MAX,
                -FX_ONE <= sy <= FX_ONE,
                -FX_ONE <= cy <= FX_ONE,
        ;
    }
    let ox = fx_mul(h, sy);
    let oz = fx_mul(h, cy);
    CameraPose {
        position: Vec3Fx { x: cam.focus.x + ox, y: cam.focus.y + oy, z: cam.focus.z + oz },
        target: cam.focus,
    }
}

} // verus!
