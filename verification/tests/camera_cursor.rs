use ecosim::camera::{
    cos_fx, handle_camera_input, sin_fx, update_camera_transform, MotionDelta, OrbitCameraState,
    DEFAULT_PITCH, DEFAULT_RADIUS, EYE_OFFSET, MAX_PITCH_FX, RADIUS_MAX, RADIUS_MIN,
};
use ecosim::cursor::CursorCaptureState;
use ecosim::fx::{FX_ONE, HALF_PI_FX, PI_FX, TWO_PI_FX};
use ecosim::vec3::Vec3Fx;

fn motion(dx: i64, dy: i64) -> MotionDelta {
    MotionDelta { dx, dy }
}

#[test]
fn trig_is_exact_at_the_quarter_points() {
    assert_eq!(sin_fx(0), 0);
    assert_eq!(sin_fx(HALF_PI_FX), FX_ONE);
    assert_eq!(sin_fx(PI_FX), 0);
    assert_eq!(sin_fx(PI_FX + HALF_PI_FX), -FX_ONE);
    assert_eq!(sin_fx(TWO_PI_FX), 0);
    assert_eq!(cos_fx(0), FX_ONE);
    assert_eq!(cos_fx(PI_FX), -FX_ONE);
}

#[test]
fn trig_stays_within_one() {
    let mut a: i64 = -70_000;
    while a <= 70_000 {
        assert!(sin_fx(a).abs() <= FX_ONE);
        assert!(cos_fx(a).abs() <= FX_ONE);
        a += 977;
    }
}

#[test]
fn default_camera_matches_the_spawn_state() {
    let cam = OrbitCameraState::default();
    assert_eq!((cam.focus.x, cam.focus.y, cam.focus.z), (0, 0, 0));
    assert_eq!(cam.radius, DEFAULT_RADIUS);
    assert_eq!(cam.yaw, 0);
    assert_eq!(cam.pitch, DEFAULT_PITCH);
}

#[test]
fn scroll_zooms_at_fixed_sensitivity() {
    let mut cam = OrbitCameraState::default();
    let wheel = vec![FX_ONE];
    handle_camera_input(&mut cam, &Vec::new(), &wheel, CursorCaptureState::Free);
    // one scroll line takes 0.2 units off the radius
    assert_eq!(cam.radius, DEFAULT_RADIUS - 2_000);
}

#[test]
fn radius_stays_clamped_for_any_scroll_sequence() {
    let mut cam = OrbitCameraState::default();
    let sequences: [Vec<i64>; 4] = [
        vec![-10_000_000; 30],
        vec![10_000_000; 30],
        vec![-10_000_000, 10_000_000, -10_000_000, 5_000_000],
        vec![123, -456, 789_000, -10_000_000, 10_000_000],
    ];
    for wheel in sequences.iter() {
        handle_camera_input(&mut cam, &Vec::new(), wheel, CursorCaptureState::Free);
        assert!(cam.radius >= RADIUS_MIN && cam.radius <= RADIUS_MAX);
    }
    // the huge scroll-out above ends pinned at the far clamp
    handle_camera_input(&mut cam, &Vec::new(), &vec![-10_000_000; 30], CursorCaptureState::Free);
    assert_eq!(cam.radius, RADIUS_MAX);
}

#[test]
fn pointer_motion_orbits_only_while_captured() {
    let mut cam = OrbitCameraState::default();
    let deltas = vec![motion(FX_ONE, FX_ONE)];
    handle_camera_input(&mut cam, &deltas, &Vec::new(), CursorCaptureState::Free);
    assert_eq!(cam.yaw, 0);
    assert_eq!(cam.pitch, DEFAULT_PITCH);
    handle_camera_input(&mut cam, &deltas, &Vec::new(), CursorCaptureState::Captured);
    // one pixel right turns the yaw back by the sensitivity, one pixel
    // down tilts the pitch up by it
    assert_eq!(cam.yaw, TWO_PI_FX - 20);
    assert_eq!(cam.pitch, DEFAULT_PITCH + 20);
}

#[test]
fn pitch_stays_clamped_for_any_motion_sequence() {
    let mut cam = OrbitCameraState::default();
    let sequences: [Vec<MotionDelta>; 3] = [
        vec![motion(0, 10_000_000); 20],
        vec![motion(0, -10_000_000); 20],
        vec![motion(5_000, 9_999_999), motion(-5_000, -123)],
    ];
    for deltas in sequences.iter() {
        handle_camera_input(&mut cam, deltas, &Vec::new(), CursorCaptureState::Captured);
        assert!(cam.pitch >= -MAX_PITCH_FX && cam.pitch <= MAX_PITCH_FX);
    }
    handle_camera_input(
        &mut cam,
        &vec![motion(0, 10_000_000); 20],
        &Vec::new(),
        CursorCaptureState::Captured,
    );
    assert_eq!(cam.pitch, MAX_PITCH_FX);
}

#[test]
fn camera_pose_sits_behind_the_focus_at_level_orbit() {
    let mut cam = OrbitCameraState::default();
    cam.pitch = 0;
    let pose = update_camera_transform(&mut cam, Vec3Fx::zero());
    assert_eq!((cam.focus.x, cam.focus.y, cam.focus.z), (0, EYE_OFFSET, 0));
    assert_eq!(
        (pose.position.x, pose.position.y, pose.position.z),
        (0, EYE_OFFSET, DEFAULT_RADIUS)
    );
    assert_eq!((pose.target.x, pose.target.y, pose.target.z), (0, EYE_OFFSET, 0));
}

#[test]
fn camera_focus_follows_the_body_without_lag() {
    let mut cam = OrbitCameraState::default();
    cam.pitch = 0;
    let pose = update_camera_transform(&mut cam, Vec3Fx::new(70_000, 20_000, -30_000));
    assert_eq!(
        (cam.focus.x, cam.focus.y, cam.focus.z),
        (70_000, 20_000 + EYE_OFFSET, -30_000)
    );
    assert_eq!(
        (pose.position.x, pose.position.y, pose.position.z),
        (70_000, 20_000 + EYE_OFFSET, -30_000 + DEFAULT_RADIUS)
    );
}

#[test]
fn cursor_capture_scenario() {
    // start free, pointer visible
    let s0 = CursorCaptureState::initial();
    assert_eq!(s0, CursorCaptureState::Free);
    assert!(s0.pointer_visible());
    assert!(!s0.pointer_locked());
    // primary press captures and hides the pointer
    let s1 = s0.step(true, false);
    assert_eq!(s1, CursorCaptureState::Captured);
    assert!(!s1.pointer_visible());
    assert!(s1.pointer_locked());
    // cancel releases and shows it again
    let s2 = s1.step(false, true);
    assert_eq!(s2, CursorCaptureState::Free);
    assert!(s2.pointer_visible());
    // a second cancel while already free changes nothing
    let s3 = s2.step(false, true);
    assert_eq!(s3, CursorCaptureState::Free);
}

#[test]
fn simultaneous_edges_leave_the_pointer_captured() {
    let s = CursorCaptureState::Free.step(true, true);
    assert_eq!(s, CursorCaptureState::Captured);
}
