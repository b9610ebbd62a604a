//! Behavior of the arcball camera state machine.

use raytracer_core::camera::ArcballCamera;
use raytracer_core::camera::DEFAULT_DISTANCE;
use raytracer_core::camera::MIN_DISTANCE;
use raytracer_core::fixed::FX_ONE;
use raytracer_core::vec3::V3;

fn px(p: i64) -> i64 {
    p * FX_ONE
}

fn test_camera() -> ArcballCamera {
    ArcballCamera::new(V3::zero(), FX_ONE, px(800), px(600))
}

#[test]
fn rotate_equal_samples_is_identity() {
    let mut cam = test_camera();
    let before = cam;
    cam.rotate((px(100), px(100)), (px(100), px(100)));
    assert_eq!(cam, before);
    assert_eq!(cam.eye_pos(), before.eye_pos());
    assert_eq!(cam.eye_dir(), before.eye_dir());
    assert_eq!(cam.up_dir(), before.up_dir());
}

#[test]
fn rotate_distinct_samples_changes_orientation() {
    let mut cam = test_camera();
    let before = cam;
    cam.rotate((px(400), px(300)), (px(500), px(300)));
    assert_ne!(cam.rot, before.rot);
    assert_eq!(cam.center, before.center);
    assert_eq!(cam.distance, before.distance);
}

#[test]
fn repeated_rotations_keep_orientation_bounded() {
    let mut cam = test_camera();
    for i in 0..200i64 {
        let x0 = px(350 + (i % 97));
        let y0 = px(280 + (i % 53));
        cam.rotate((x0, y0), (x0 + px(3), y0 + px(2)));
        assert!(cam.rot.w.abs() <= FX_ONE);
        assert!(cam.rot.x.abs() <= FX_ONE);
        assert!(cam.rot.y.abs() <= FX_ONE);
        assert!(cam.rot.z.abs() <= FX_ONE);
    }
}

#[test]
fn zoom_distance_stays_strictly_positive() {
    let mut cam = test_camera();
    for _ in 0..100 {
        cam.zoom(i64::MAX, i64::MAX);
        assert!(cam.distance > 0);
        assert!(cam.distance >= MIN_DISTANCE);
    }
    for _ in 0..100 {
        cam.zoom(i64::MIN, i64::MAX);
        assert!(cam.distance > 0);
    }
}

#[test]
fn zoom_negative_delta_moves_away() {
    let mut cam = test_camera();
    let before = cam.distance;
    cam.zoom(-FX_ONE, FX_ONE);
    assert!(cam.distance > before);
    assert_eq!(cam.distance, 2 * FX_ONE);
}

#[test]
fn update_screen_preserves_pose() {
    let mut cam = test_camera();
    cam.rotate((px(400), px(300)), (px(420), px(310)));
    cam.zoom(-3 * FX_ONE, FX_ONE / 2);
    let pos = cam.eye_pos();
    let dir = cam.eye_dir();
    let up = cam.up_dir();
    cam.update_screen(px(1920), px(1080));
    assert_eq!(cam.eye_pos(), pos);
    assert_eq!(cam.eye_dir(), dir);
    assert_eq!(cam.up_dir(), up);
    assert_eq!(cam.screen_w, px(1920));
    assert_eq!(cam.screen_h, px(1080));
}

#[test]
fn reset_restores_fresh_camera() {
    let mut cam = test_camera();
    cam.rotate((px(100), px(100)), (px(220), px(180)));
    cam.pan((px(40), px(-25)));
    cam.zoom(5 * FX_ONE, FX_ONE);
    cam.rotate((px(300), px(260)), (px(280), px(400)));
    let fresh = ArcballCamera::new(cam.center, cam.zoom_speed, cam.screen_w, cam.screen_h);
    cam.reset();
    assert_eq!(cam, fresh);
    assert_eq!(cam.distance, DEFAULT_DISTANCE);
    assert_eq!(cam.eye_pos(), fresh.eye_pos());
    assert_eq!(cam.eye_dir(), fresh.eye_dir());
    assert_eq!(cam.up_dir(), fresh.up_dir());
}

#[test]
fn pan_moves_center_only() {
    let mut cam = test_camera();
    let before = cam;
    cam.pan((px(50), px(30)));
    assert_ne!(cam.center, before.center);
    assert_eq!(cam.distance, before.distance);
    assert_eq!(cam.rot, before.rot);
    assert_eq!(cam.screen_w, before.screen_w);
    assert_eq!(cam.screen_h, before.screen_h);
}

#[test]
fn fresh_camera_pose_is_on_world_z_axis() {
    let cam = test_camera();
    assert_eq!(cam.eye_pos(), V3 { x: 0, y: 0, z: DEFAULT_DISTANCE });
    assert_eq!(cam.eye_dir(), V3 { x: 0, y: 0, z: -FX_ONE });
    assert_eq!(cam.up_dir(), V3 { x: 0, y: FX_ONE, z: 0 });
}

#[test]
fn degenerate_viewport_is_clamped() {
    let cam = ArcballCamera::new(V3::zero(), FX_ONE, 0, -px(5));
    assert_eq!(cam.screen_w, FX_ONE);
    assert_eq!(cam.screen_h, FX_ONE);
    let mut cam = cam;
    cam.rotate((px(2), px(3)), (px(4), px(9)));
    assert!(cam.rot.w.abs() <= FX_ONE);
}
