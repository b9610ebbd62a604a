//! Behavior of the scene compute stage: dispatch sizing, resize protocol
//! and the uniform mirror.

use raytracer_core::camera::CameraOperation;
use raytracer_core::fixed::FX_ONE;
use raytracer_core::scene::CameraUniform;
use raytracer_core::scene::Scene;
use raytracer_core::scene::TILE_SIDE;
use raytracer_core::scene::workgroup_count;
use raytracer_core::vec3::V3;

fn px(p: i64) -> i64 {
    p * FX_ONE
}

fn test_scene(width: u32, height: u32) -> Scene {
    Scene::new(V3::zero(), FX_ONE, width, height)
}

#[test]
fn workgroup_count_is_ceiling_division() {
    assert_eq!(workgroup_count(1, TILE_SIDE), 1);
    assert_eq!(workgroup_count(16, TILE_SIDE), 2);
    assert_eq!(workgroup_count(17, TILE_SIDE), 3);
    assert_eq!(workgroup_count(8, TILE_SIDE), 1);
    assert_eq!(workgroup_count(9, TILE_SIDE), 2);
    assert_eq!(workgroup_count(800, TILE_SIDE), 100);
    assert_eq!(workgroup_count(0, TILE_SIDE), 0);
}

#[test]
fn dispatch_covers_one_pixel_target() {
    let scene = test_scene(1, 1);
    assert_eq!(scene.render(), (1, 1, 1));
}

#[test]
fn dispatch_covers_square_and_ragged_targets() {
    let scene = test_scene(16, 16);
    assert_eq!(scene.render(), (2, 2, 1));
    let scene = test_scene(17, 16);
    assert_eq!(scene.render(), (3, 2, 1));
}

#[test]
fn resize_clamps_to_one_pixel() {
    let mut scene = test_scene(800, 600);
    scene.resize_texture(0, 0);
    assert_eq!(scene.texture.width, 1);
    assert_eq!(scene.texture.height, 1);
    scene.resize_texture(0, 7);
    assert_eq!(scene.texture.width, 1);
    assert_eq!(scene.texture.height, 7);
}

#[test]
fn resize_keeps_pose_and_updates_viewport() {
    let mut scene = test_scene(800, 600);
    scene.on_pointer_moved(CameraOperation::Rotate, (px(10), px(10)));
    scene.on_pointer_moved(CameraOperation::Rotate, (px(60), px(42)));
    let pos = scene.camera.eye_pos();
    let dir = scene.camera.eye_dir();
    let up = scene.camera.up_dir();
    scene.resize_texture(1024, 768);
    assert_eq!(scene.camera.eye_pos(), pos);
    assert_eq!(scene.camera.eye_dir(), dir);
    assert_eq!(scene.camera.up_dir(), up);
    assert_eq!(scene.camera.screen_w, px(1024));
    assert_eq!(scene.camera.screen_h, px(768));
}

#[test]
fn uniform_mirror_follows_every_camera_edit() {
    let mut scene = test_scene(640, 480);
    assert_eq!(scene.camera_uniform, CameraUniform::from_camera(&scene.camera));
    scene.on_zoom(-2 * FX_ONE);
    assert_eq!(scene.camera_uniform, CameraUniform::from_camera(&scene.camera));
    scene.on_pointer_moved(CameraOperation::Rotate, (px(5), px(5)));
    scene.on_pointer_moved(CameraOperation::Rotate, (px(25), px(35)));
    assert_eq!(scene.camera_uniform, CameraUniform::from_camera(&scene.camera));
    scene.reset_camera();
    assert_eq!(scene.camera_uniform, CameraUniform::from_camera(&scene.camera));
}

#[test]
fn first_pointer_sample_is_stored_not_acted_on() {
    let mut scene = test_scene(800, 600);
    let cam = scene.camera;
    scene.on_pointer_moved(CameraOperation::Rotate, (px(100), px(100)));
    assert_eq!(scene.camera, cam);
    assert_eq!(scene.prev_pointer_pos, Some((px(100), px(100))));
    scene.on_pointer_moved(CameraOperation::Rotate, (px(140), px(90)));
    assert_ne!(scene.camera.rot, cam.rot);
}

#[test]
fn pan_gesture_moves_center() {
    let mut scene = test_scene(800, 600);
    let cam = scene.camera;
    scene.on_pointer_moved(CameraOperation::Pan, (px(100), px(100)));
    scene.on_pointer_moved(CameraOperation::Pan, (px(300), px(100)));
    assert_ne!(scene.camera.center, cam.center);
    assert_eq!(scene.camera.rot, cam.rot);
    assert_eq!(scene.camera.distance, cam.distance);
}

#[test]
fn idle_gesture_tracks_without_moving_camera() {
    let mut scene = test_scene(800, 600);
    let cam = scene.camera;
    scene.on_pointer_moved(CameraOperation::Idle, (px(100), px(100)));
    scene.on_pointer_moved(CameraOperation::Idle, (px(300), px(200)));
    assert_eq!(scene.camera, cam);
    assert_eq!(scene.prev_pointer_pos, Some((px(300), px(200))));
}

#[test]
fn reset_camera_restores_default_view() {
    let mut scene = test_scene(800, 600);
    let initial_pos = scene.camera.eye_pos();
    let initial_dir = scene.camera.eye_dir();
    scene.on_zoom(7 * FX_ONE);
    scene.on_pointer_moved(CameraOperation::Rotate, (px(10), px(20)));
    scene.on_pointer_moved(CameraOperation::Rotate, (px(90), px(120)));
    scene.reset_camera();
    assert_eq!(scene.camera.eye_pos(), initial_pos);
    assert_eq!(scene.camera.eye_dir(), initial_dir);
}

#[test]
fn zero_sized_construction_is_clamped() {
    let scene = test_scene(0, 0);
    assert_eq!(scene.texture.width, 1);
    assert_eq!(scene.texture.height, 1);
    assert_eq!(scene.render(), (1, 1, 1));
}
