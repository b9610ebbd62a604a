//! End-to-end behavior of the frame orchestrator: event routing, the
//! resize protocol and the per-frame plan.

use raytracer_core::application::Application;
use raytracer_core::application::FramePlan;
use raytracer_core::application::InputEvent;
use raytracer_core::application::RedrawOutcome;
use raytracer_core::application::SurfaceStatus;
use raytracer_core::camera::ArcballCamera;
use raytracer_core::fixed::FX_ONE;
use raytracer_core::vec3::V3;

fn px(p: i64) -> i64 {
    p * FX_ONE
}

fn test_app() -> Application {
    Application::new(V3::zero(), FX_ONE, 800, 600)
}

#[test]
fn zoom_out_moves_eye_along_initial_view_axis() {
    let mut cam = ArcballCamera::new(V3::zero(), FX_ONE, px(800), px(600));
    assert_eq!(cam.distance, FX_ONE);
    cam.zoom(-FX_ONE, FX_ONE);
    assert!(cam.distance > FX_ONE);
    assert_eq!(cam.distance, 2 * FX_ONE);
    assert_eq!(cam.eye_pos(), V3 { x: 0, y: 0, z: cam.distance });
    assert_eq!(cam.eye_dir(), V3 { x: 0, y: 0, z: -FX_ONE });
}

#[test]
fn press_and_motionless_drag_leaves_pose_bit_identical() {
    let mut app = test_app();
    assert!(app.handle_event(InputEvent::PointerButton { pressed: true }));
    let camera_before = app.scene.camera;
    let uniform_before = app.scene.camera_uniform;
    assert!(app.handle_event(InputEvent::PointerMoved { x: px(100), y: px(100) }));
    assert!(app.handle_event(InputEvent::PointerMoved { x: px(100), y: px(100) }));
    assert_eq!(app.scene.camera, camera_before);
    assert_eq!(app.scene.camera_uniform, uniform_before);
}

#[test]
fn resize_sequence_never_records_zero_dimensions() {
    let mut app = test_app();
    app.resize(800, 600);
    assert_eq!((app.scene.texture.width, app.scene.texture.height), (800, 600));
    app.resize(0, 0);
    assert!(app.scene.texture.width >= 1 && app.scene.texture.height >= 1);
    assert_eq!((app.scene.texture.width, app.scene.texture.height), (1, 1));
    app.resize(400, 300);
    assert_eq!((app.scene.texture.width, app.scene.texture.height), (400, 300));
    assert_eq!((app.surface_width, app.surface_height), (400, 300));
}

#[test]
fn resize_keeps_pose() {
    let mut app = test_app();
    app.handle_event(InputEvent::PointerButton { pressed: true });
    app.handle_event(InputEvent::PointerMoved { x: px(400), y: px(300) });
    app.handle_event(InputEvent::PointerMoved { x: px(500), y: px(340) });
    let pos = app.scene.camera.eye_pos();
    let dir = app.scene.camera.eye_dir();
    app.resize(1024, 768);
    assert_eq!(app.scene.camera.eye_pos(), pos);
    assert_eq!(app.scene.camera.eye_dir(), dir);
}

#[test]
fn button_press_restarts_tracking() {
    let mut app = test_app();
    app.handle_event(InputEvent::PointerButton { pressed: true });
    app.handle_event(InputEvent::PointerMoved { x: px(10), y: px(10) });
    assert!(app.scene.prev_pointer_pos.is_some());
    app.handle_event(InputEvent::PointerButton { pressed: true });
    assert_eq!(app.scene.prev_pointer_pos, None);
    assert!(app.mouse_down);
    app.handle_event(InputEvent::PointerButton { pressed: false });
    assert!(!app.mouse_down);
}

#[test]
fn motion_without_drag_is_not_handled() {
    let mut app = test_app();
    let camera_before = app.scene.camera;
    assert!(!app.handle_event(InputEvent::PointerMoved { x: px(50), y: px(60) }));
    assert_eq!(app.scene.camera, camera_before);
    assert_eq!(app.scene.prev_pointer_pos, None);
}

#[test]
fn scroll_zooms_regardless_of_drag_state() {
    let mut app = test_app();
    let d0 = app.scene.camera.distance;
    assert!(app.handle_event(InputEvent::Scroll { delta: -4 * FX_ONE }));
    assert!(app.scene.camera.distance > d0);
    app.handle_event(InputEvent::PointerButton { pressed: true });
    let d1 = app.scene.camera.distance;
    assert!(app.handle_event(InputEvent::Scroll { delta: -4 * FX_ONE }));
    assert!(app.scene.camera.distance > d1);
}

#[test]
fn reset_key_restores_initial_pose() {
    let mut app = test_app();
    let pos = app.scene.camera.eye_pos();
    app.handle_event(InputEvent::Scroll { delta: 9 * FX_ONE });
    app.handle_event(InputEvent::PointerButton { pressed: true });
    app.handle_event(InputEvent::PointerMoved { x: px(100), y: px(100) });
    app.handle_event(InputEvent::PointerMoved { x: px(300), y: px(240) });
    assert!(app.handle_event(InputEvent::ResetKey));
    assert_eq!(app.scene.camera.eye_pos(), pos);
}

#[test]
fn unknown_events_are_ignored() {
    let mut app = test_app();
    let camera_before = app.scene.camera;
    assert!(!app.handle_event(InputEvent::Other));
    assert_eq!(app.scene.camera, camera_before);
}

#[test]
fn redraw_with_acquired_surface_plans_one_frame() {
    let mut app = test_app();
    let outcome = app.render(SurfaceStatus::Acquired, 800, 600);
    let expected = FramePlan {
        workgroups_x: 100,
        workgroups_y: 75,
        workgroups_z: 1,
        draw_vertices: 6,
        draw_instances: 1,
    };
    assert_eq!(outcome, RedrawOutcome::Rendered(expected));
}

#[test]
fn redraw_with_outdated_surface_resizes_and_skips() {
    let mut app = test_app();
    let outcome = app.render(SurfaceStatus::Outdated, 1024, 768);
    assert_eq!(outcome, RedrawOutcome::ResizedInstead);
    assert_eq!((app.surface_width, app.surface_height), (1024, 768));
    let outcome = app.render(SurfaceStatus::Acquired, 1024, 768);
    let expected = FramePlan {
        workgroups_x: 128,
        workgroups_y: 96,
        workgroups_z: 1,
        draw_vertices: 6,
        draw_instances: 1,
    };
    assert_eq!(outcome, RedrawOutcome::Rendered(expected));
}

#[test]
fn redraw_with_fatal_failure_reports_failure() {
    let mut app = test_app();
    let outcome = app.render(SurfaceStatus::Fatal, 800, 600);
    assert_eq!(outcome, RedrawOutcome::Failed);
}
