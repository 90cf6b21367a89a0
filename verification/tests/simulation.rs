use ecosim::creature::{creature_autonomous_movement, AutonomousMovement};
use ecosim::fx::FX_ONE;
use ecosim::movement::{apply_movement_intent, MovementIntent, MovementStats};
use ecosim::player::{handle_keyboard_input, DirectionalKeys};
use ecosim::vec3::Vec3Fx;

fn keys(forward: bool, back: bool, left: bool, right: bool) -> DirectionalKeys {
    DirectionalKeys { forward, back, left, right }
}

fn sq_norm(v: &Vec3Fx) -> i64 {
    v.x * v.x + v.z * v.z
}

fn is_unit_or_zero(v: &Vec3Fx) -> bool {
    v.y == 0
        && ((v.x == 0 && v.z == 0)
            || (sq_norm(v) >= FX_ONE * FX_ONE - 7 * FX_ONE && sq_norm(v) <= FX_ONE * FX_ONE))
}

#[test]
fn sampler_idle_gives_zero() {
    let forward = Vec3Fx::new(0, 0, -FX_ONE);
    let right = Vec3Fx::new(FX_ONE, 0, 0);
    let r = handle_keyboard_input(&forward, &right, keys(false, false, false, false));
    assert_eq!((r.direction.x, r.direction.y, r.direction.z), (0, 0, 0));
}

#[test]
fn sampler_single_key_is_unit() {
    let forward = Vec3Fx::new(0, 0, -FX_ONE);
    let right = Vec3Fx::new(FX_ONE, 0, 0);
    let r = handle_keyboard_input(&forward, &right, keys(true, false, false, false));
    assert_eq!((r.direction.x, r.direction.y, r.direction.z), (0, 0, -FX_ONE));
}

#[test]
fn sampler_diagonal_never_exceeds_unit() {
    let forward = Vec3Fx::new(0, 0, -FX_ONE);
    let right = Vec3Fx::new(FX_ONE, 0, 0);
    let r = handle_keyboard_input(&forward, &right, keys(true, false, false, true));
    assert_eq!((r.direction.x, r.direction.y, r.direction.z), (7_070, 0, -7_070));
    assert!(sq_norm(&r.direction) <= FX_ONE * FX_ONE);
}

#[test]
fn sampler_opposing_keys_cancel() {
    let forward = Vec3Fx::new(0, 0, -FX_ONE);
    let right = Vec3Fx::new(FX_ONE, 0, 0);
    let r = handle_keyboard_input(&forward, &right, keys(true, true, false, false));
    assert_eq!((r.direction.x, r.direction.y, r.direction.z), (0, 0, 0));
}

#[test]
fn sampler_degenerate_forward_contributes_zero() {
    // A camera looking straight down projects to the zero vector on the
    // horizontal plane; only the right axis is left.
    let forward = Vec3Fx::new(0, -FX_ONE, 0);
    let right = Vec3Fx::new(FX_ONE, 0, 0);
    let r = handle_keyboard_input(&forward, &right, keys(true, false, false, true));
    assert_eq!((r.direction.x, r.direction.y, r.direction.z), (FX_ONE, 0, 0));
}

#[test]
fn sampler_magnitude_zero_or_one_for_every_key_combination() {
    // A tilted camera basis, so sums take all sixteen directions.
    let forward = Vec3Fx::new(3_000, 2_500, -9_000);
    let right = Vec3Fx::new(9_000, -1_000, 3_000);
    for mask in 0u32..16 {
        let k = keys(mask & 1 != 0, mask & 2 != 0, mask & 4 != 0, mask & 8 != 0);
        let r = handle_keyboard_input(&forward, &right, k);
        assert!(is_unit_or_zero(&r.direction), "combination {} broke the invariant", mask);
    }
}

#[test]
fn force_is_error_times_gain_with_no_vertical_part() {
    let intent = MovementIntent { direction: Vec3Fx::new(FX_ONE, 0, 0) };
    let stats = MovementStats { speed: 50_000, acceleration: 150_000 };
    let vel = Vec3Fx::new(0, 123_456, 0);
    let f = apply_movement_intent(&intent, &stats, &vel);
    // target velocity 5.0, error 5.0, gain 15 => force 75.0
    assert_eq!((f.x, f.y, f.z), (750_000, 0, 0));
}

#[test]
fn force_opposes_excess_velocity() {
    let intent = MovementIntent::default();
    let stats = MovementStats { speed: 30_000, acceleration: 50_000 };
    let vel = Vec3Fx::new(20_000, 0, -10_000);
    let f = apply_movement_intent(&intent, &stats, &vel);
    // target 0: force = -v * 5
    assert_eq!((f.x, f.y, f.z), (-100_000, 0, 50_000));
}

#[test]
fn repeated_force_application_converges_monotonically() {
    // Constant nonzero intent, fixed gain: velocity approaches
    // direction * max_speed without ever crossing it.
    let intent = MovementIntent { direction: Vec3Fx::new(FX_ONE, 0, 0) };
    let stats = MovementStats { speed: 50_000, acceleration: 150_000 };
    // The collaborator's integration factor (time step over mass):
    // acceleration * gain stays at or below one.
    let gain: i64 = 600;
    let target: i64 = 50_000;
    let mut v: i64 = 0;
    let mut last_err: i64 = (target - v).abs();
    for _ in 0..50 {
        let f = apply_movement_intent(&intent, &stats, &Vec3Fx::new(v, 0, 0));
        v += ecosim::fx::fx_mul(f.x, gain);
        let err = (target - v).abs();
        assert!(err <= last_err, "error grew from {} to {}", last_err, err);
        assert!(v <= target, "velocity overshot the target: {}", v);
        last_err = err;
    }
    assert!(last_err < 50_000);
}

#[test]
fn timer_accumulates_without_firing_below_duration() {
    let mut state = AutonomousMovement::new(3_000_000);
    let mut intent = MovementIntent { direction: Vec3Fx::new(0, 0, FX_ONE) };
    let fired = creature_autonomous_movement(&mut state, &mut intent, 1_000_000);
    assert!(!fired);
    assert_eq!(state.elapsed_us, 1_000_000);
    assert_eq!((intent.direction.x, intent.direction.z), (0, FX_ONE));
    let fired = creature_autonomous_movement(&mut state, &mut intent, 1_999_999);
    assert!(!fired);
    assert_eq!(state.elapsed_us, 2_999_999);
    assert_eq!((intent.direction.x, intent.direction.z), (0, FX_ONE));
}

#[test]
fn timer_fires_exactly_at_the_boundary_and_resets() {
    let mut state = AutonomousMovement::new(3_000_000);
    let mut intent = MovementIntent { direction: Vec3Fx::new(0, 0, FX_ONE) };
    assert!(!creature_autonomous_movement(&mut state, &mut intent, 2_999_999));
    let fired = creature_autonomous_movement(&mut state, &mut intent, 1);
    assert!(fired);
    assert_eq!(state.elapsed_us, 0);
    assert!(is_unit_or_zero(&intent.direction));
}

#[test]
fn timer_keeps_the_overshoot_when_it_fires() {
    let mut state = AutonomousMovement::new(3_000_000);
    let mut intent = MovementIntent::default();
    let fired = creature_autonomous_movement(&mut state, &mut intent, 7_500_000);
    assert!(fired);
    assert_eq!(state.elapsed_us, 1_500_000);
}

#[test]
fn fired_intent_is_always_unit_or_zero() {
    let mut state = AutonomousMovement::new(1);
    let mut intent = MovementIntent::default();
    for _ in 0..100 {
        let fired = creature_autonomous_movement(&mut state, &mut intent, 1);
        assert!(fired);
        assert!(is_unit_or_zero(&intent.direction));
    }
}
