//! The frame orchestrator, modelled as plain state.
//!
//! Owns the presentable surface's recorded configuration, the scene stage,
//! the display binding set and the drag flag. Routes input events to the
//! camera, keeps the display binding set consistent with the scene's render
//! target across resizes, and decides what one redraw does for each surface
//! acquisition outcome: render, resize-and-continue, or fail.

use vstd::prelude::*;

use crate::camera::CameraOperation;
use crate::camera::s_cam_new;
use crate::camera::s_cam_rotate;
use crate::camera::s_cam_zoom;
use crate::camera::s_eye_dir;
use crate::camera::s_eye_pos;
use crate::camera::s_up_dir;
use crate::fixed::FX_ONE;
use crate::scene::Scene;
use crate::scene::TILE_SIDE;
use crate::scene::ZOOM_TIME_STEP;
use crate::scene::fx_clamp_spec;
use crate::scene::s_px_fx;
use crate::scene::s_scene_wf;
use crate::scene::s_tile_count;
use crate::vec3::V3;

verus! {

/// One input event, reduced to the plain values the core reads.
#[derive(Clone, Copy, Debug, PartialEq, Eq, Structural)]
pub enum InputEvent {
    /// The primary pointer button went down or up.
    PointerButton { pressed: bool },
    /// The pointer moved to this position, in fixed-point pixels.
    PointerMoved { x: i64, y: i64 },
    /// A scroll step, in fixed-point scroll units.
    Scroll { delta: i64 },
    /// The camera reset key was pressed.
    ResetKey,
    /// Anything the orchestrator does not handle.
    Other,
}

/// The outcome of acquiring the next presentable surface image.
#[derive(Clone, Copy, Debug, PartialEq, Eq, Structural)]
pub enum SurfaceStatus {
    /// An image was acquired and can be presented.
    Acquired,
    /// The surface no longer matches the window: resize and try again on
    /// the next frame.
    Outdated,
    /// Any other acquisition failure: fatal.
    Fatal,
}

/// What one frame submits: the compute dispatch covering the render target,
/// then one full-screen draw reading it, in that order within a single
/// command stream.
#[derive(Clone, Copy, Debug, PartialEq, Eq, Structural)]
pub struct FramePlan {
    /// Workgroups of the compute dispatch, per axis.
    pub workgroups_x: u32,
    pub workgroups_y: u32,
    pub workgroups_z: u32,
    /// Vertices of the full-screen draw: two triangles.
    pub draw_vertices: u32,
    /// Instances of the full-screen draw.
    pub draw_instances: u32,
}

/// What one redraw did.
#[derive(Clone, Copy, Debug, PartialEq, Eq, Structural)]
pub enum RedrawOutcome {
    /// A frame was planned: compute pass, then display pass, one submission.
    Rendered(FramePlan),
    /// The surface was outdated: the orchestrator resized to the window's
    /// current size and skipped this frame.
    ResizedInstead,
    /// A fatal acquisition failure: the caller must stop the frame loop.
    Failed,
}

/// The orchestrator: surface configuration, scene stage, display binding
/// set and drag state.
pub struct Application {
    /// The configured surface extent, clamped to at least one pixel.
    pub surface_width: u32,
    pub surface_height: u32,
    pub scene: Scene,
    /// Which image the display binding set references. Valid only while it
    /// equals the scene texture's identity.
    pub render_bind_texture_id: Ghost<int>,
    /// Whether a drag is in progress.
    pub mouse_down: bool,
}

/// Orchestrator invariant: the scene is well formed, the surface
/// configuration matches the render target, and the display binding set
/// references the live image.
pub open spec fn s_app_wf(a: Application) -> bool {
    &&& s_scene_wf(a.scene)
    &&& a.surface_width == a.scene.texture.width
    &&& a.surface_height == a.scene.texture.height
    &&& a.render_bind_texture_id@ == a.scene.texture.id@
}

impl Application {
    /// Build the orchestrator around a fresh scene and a display binding
    /// set referencing the scene's initial render target.
    pub fn new(center: V3, zoom_sensitivity: i64, width: u32, height: u32) -> (r: Application)
        ensures
            s_app_wf(r),
            r.surface_width == if width >= 1 {
                width
            } else {
                1u32
            },
            r.surface_height == if height >= 1 {
                height
            } else {
                1u32
            },
            r.mouse_down == false,
            r.scene.prev_pointer_pos is None,
            r.scene.camera@ == s_cam_zoom(
                s_cam_new(
                    center@,
                    zoom_sensitivity as int,
                    s_px_fx(width as int),
                    s_px_fx(height as int),
                ),
                -FX_ONE as int,
                FX_ONE as int,
            ),
    {
        let scene = Scene::new(center, zoom_sensitivity, width, height);
        let w1 = scene.texture.width;
        let h1 = scene.texture.height;
        let ghost live_id: int = scene.texture.id@;
        Application {
            surface_width: w1,
            surface_height: h1,
            scene,
            render_bind_texture_id: Ghost(live_id),
            mouse_down: false,
        }
    }

    /// Resize everything in lock-step: surface configuration, render
    /// target, compute binding set, display binding set and camera
    /// viewport. No state with a binding set referencing the discarded
    /// image is ever visible, and the pose is untouched.
    pub fn resize(&mut self, width: u32, height: u32)
        requires
            s_app_wf(*old(self)),
        ensures
            s_app_wf(*final(self)),
            final(self).surface_width == if width >= 1 {
                width
            } else {
                1u32
            },
            final(self).surface_height == if height >= 1 {
                height
            } else {
                1u32
            },
            final(self).scene.texture.id@ != old(self).scene.texture.id@,
            final(self).render_bind_texture_id@ == final(self).scene.texture.id@,
            s_eye_pos(final(self).scene.camera@) == s_eye_pos(old(self).scene.camera@),
            s_eye_dir(final(self).scene.camera@) == s_eye_dir(old(self).scene.camera@),
            s_up_dir(final(self).scene.camera@) == s_up_dir(old(self).scene.camera@),
            final(self).mouse_down == old(self).mouse_down,
            final(self).scene.prev_pointer_pos == old(self).scene.prev_pointer_pos,
    {
        let w1: u32 = if width >= 1 {
            width
        } else {
            1
        };
        let h1: u32 = if height >= 1 {
            height
        } else {
            1
        };
        self.surface_width = w1;
        self.surface_height = h1;
        self.scene.resize_texture(w1, h1);
        // The display binding set still references the discarded image:
        // rebuild it against the fresh one in the same step.
        self.render_bind_texture_id = Ghost(self.scene.texture.id@);
    }

    /// Route one input event.
    ///
    /// A pointer button edge restarts pointer tracking and toggles the
    /// drag flag; pointer motion rotates the arcball while dragging; a
    /// scroll step zooms regardless of drag state; the reset key restores
    /// the camera. Every camera edit pushes the pose to the uniform mirror
    /// at once. Returns whether the event was consumed.
    pub fn handle_event(&mut self, event: InputEvent) -> (r: bool)
        requires
            s_app_wf(*old(self)),
        ensures
            s_app_wf(*final(self)),
            final(self).scene.texture == old(self).scene.texture,
            final(self).surface_width == old(self).surface_width,
            final(self).surface_height == old(self).surface_height,
            event matches InputEvent::PointerButton { pressed } ==> r == true && final(self).mouse_down == pressed && final(self).scene.prev_pointer_pos is None && final(self).scene.camera == old(self).scene.camera,
            event matches InputEvent::PointerMoved { x, y } ==> ((!old(self).mouse_down ==> r
                == false && *final(self) == *old(self)) && (old(self).mouse_down ==> r == true
                && final(self).mouse_down && (old(self).scene.prev_pointer_pos is None ==> final(self).scene.camera == old(self).scene.camera) && (old(self).scene.prev_pointer_pos matches Option::Some(p) ==> final(self).scene.camera@
                == s_cam_rotate(
                old(self).scene.camera@,
                p.0 as int,
                p.1 as int,
                fx_clamp_spec(x as int),
                fx_clamp_spec(y as int),
            )))),
            event matches InputEvent::Scroll { delta } ==> r == true && final(self).scene.camera@
                == s_cam_zoom(old(self).scene.camera@, delta as int, ZOOM_TIME_STEP as int)
                && final(self).mouse_down == old(self).mouse_down && final(self).scene.prev_pointer_pos == old(self).scene.prev_pointer_pos,
            event == InputEvent::ResetKey ==> r == true && final(self).scene.camera@ == s_cam_zoom(
                s_cam_new(
                    old(self).scene.camera@.center,
                    old(self).scene.camera@.zoom_speed,
                    old(self).scene.camera@.screen_w,
                    old(self).scene.camera@.screen_h,
                ),
                -FX_ONE as int,
                FX_ONE as int,
            ) && final(self).mouse_down == old(self).mouse_down,
            event == InputEvent::Other ==> r == false && *final(self) == *old(self),
    {
        match event {
            InputEvent::PointerButton { pressed } => {
                self.scene.prev_pointer_pos = Option::None;
                self.mouse_down = pressed;
                true
            },
            InputEvent::PointerMoved { x, y } => {
                if self.mouse_down {
                    self.scene.on_pointer_moved(CameraOperation::Rotate, (x, y));
                    true
                } else {
                    false
                }
            },
            InputEvent::Scroll { delta } => {
                self.scene.on_zoom(delta);
                true
            },
            InputEvent::ResetKey => {
                self.scene.reset_camera();
                true
            },
            InputEvent::Other => false,
        }
    }

    /// The plan of one frame while the bindings are consistent: a compute
    /// dispatch covering every pixel of the render target, then one
    /// six-vertex, one-instance full-screen draw reading it.
    pub fn frame_plan(&self) -> (r: FramePlan)
        requires
            s_app_wf(*self),
        ensures
            r.workgroups_x as int == s_tile_count(self.scene.texture.width as int, TILE_SIDE as int),
            r.workgroups_y as int == s_tile_count(
                self.scene.texture.height as int,
                TILE_SIDE as int,
            ),
            r.workgroups_z == 1u32,
            r.draw_vertices == 6u32,
            r.draw_instances == 1u32,
    {
        let workgroups = self.scene.render();
        FramePlan {
            workgroups_x: workgroups.0,
            workgroups_y: workgroups.1,
            workgroups_z: workgroups.2,
            draw_vertices: 6,
            draw_instances: 1,
        }
    }

    /// One redraw: render when an image was acquired, resize to the
    /// window's current size when the surface was outdated, and report any
    /// other failure as fatal. The outdated case never renders in the same
    /// tick and never surfaces as an error.
    pub fn render(&mut self, status: SurfaceStatus, window_width: u32, window_height: u32) -> (r:
        RedrawOutcome)
        requires
            s_app_wf(*old(self)),
        ensures
            s_app_wf(*final(self)),
            status == SurfaceStatus::Acquired ==> *final(self) == *old(self) && (r matches
                RedrawOutcome::Rendered(plan) && plan.workgroups_x as int == s_tile_count(
                old(self).scene.texture.width as int,
                TILE_SIDE as int,
            ) && plan.workgroups_y as int == s_tile_count(
                old(self).scene.texture.height as int,
                TILE_SIDE as int,
            ) && plan.workgroups_z == 1u32 && plan.draw_vertices == 6u32 && plan.draw_instances
                == 1u32),
            status == SurfaceStatus::Outdated ==> r == RedrawOutcome::ResizedInstead && final(self).surface_width == (if window_width >= 1 {
                window_width
            } else {
                1u32
            }) && final(self).surface_height == (if window_height >= 1 {
                window_height
            } else {
                1u32
            }) && final(self).scene.texture.id@ != old(self).scene.texture.id@ && final(self).render_bind_texture_id@ == final(self).scene.texture.id@,
            status == SurfaceStatus::Fatal ==> r == RedrawOutcome::Failed && *final(self) == *old(self),
    {
        match status {
            SurfaceStatus::Acquired => RedrawOutcome::Rendered(self.frame_plan()),
            SurfaceStatus::Outdated => {
                self.resize(window_width, window_height);
                RedrawOutcome::ResizedInstead
            },
            SurfaceStatus::Fatal => RedrawOutcome::Failed,
        }
    }
}

} // verus!
