//! The scene compute stage, modelled as plain state.
//!
//! The stage owns the off-screen render target, the GPU-visible mirror of
//! the camera pose, and the binding set tying both to the compute pipeline.
//! The target and its binding set are rebuilt together, atomically, on every
//! resize; the recorded dimensions are clamped to at least one pixel so a
//! zero-sized allocation can never be requested. The dispatch covers the
//! target with square tiles, the tile count per axis computed by ceiling
//! division in integers.

use vstd::prelude::*;

use crate::camera::ArcballCamera;
use crate::camera::CameraM;
use crate::camera::CameraOperation;
use crate::camera::PTR_LIM;
use crate::camera::SCREEN_MAX;
use crate::camera::SCREEN_MIN;
use crate::camera::s_cam_new;
use crate::camera::s_cam_pan;
use crate::camera::s_cam_rotate;
use crate::camera::s_cam_wf;
use crate::camera::s_cam_zoom;
use crate::camera::s_eye_dir;
use crate::camera::s_eye_pos;
use crate::camera::s_up_dir;
use crate::fixed::FX_ONE;
use crate::fixed::fx_clamp;
use crate::fixed::s_clamp;
use crate::vec3::V3;
use crate::vec3::V3i;

verus! {

/// Side length of one square compute tile, in pixels.
pub const TILE_SIDE: u32 = 8;

/// The time step handed to zoom for one scroll step: one sixtieth of a
/// second, in fixed point.
pub const ZOOM_TIME_STEP: i64 = 1092;

/// A viewport extent in pixels, as a fixed-point scalar.
pub open spec fn s_px_fx(p: int) -> int {
    p * FX_ONE
}

/// Convert a pixel count to a fixed-point scalar.
pub fn px_to_fx(p: u32) -> (r: i64)
    ensures
        r as int == s_px_fx(p as int),
{
    (p as i64) * FX_ONE
}

/// Tiles needed to cover `dim` pixels with tiles of `tile` pixels:
/// ceiling division, computed as `(dim + tile - 1) / tile`.
pub open spec fn s_tile_count(dim: int, tile: int) -> int
    recommends
        tile >= 1,
{
    (dim + tile - 1) / tile
}

/// Number of workgroups along one axis: the ceiling of `dim / tile`.
pub fn workgroup_count(dim: u32, tile: u32) -> (r: u32)
    requires
        1 <= tile,
    ensures
        r as int == s_tile_count(dim as int, tile as int),
        dim >= 1 ==> 1 <= r && ((r as int) - 1) * (tile as int) < dim as int <= (r as int) * (
        tile as int),
        dim == 0 ==> r == 0,
{
    let wide: u64 = (dim as u64 + tile as u64 - 1) / (tile as u64);
    proof {
        assert((wide as int) <= dim as int) by (nonlinear_arith)
            requires
                wide == ((dim as int) + (tile as int) - 1) / (tile as int),
                1 <= tile as int,
                0 <= dim as int,
        ;
        if dim >= 1 {
            assert(1 <= (wide as int) && ((wide as int) - 1) * (tile as int) < dim as int <= (
            wide as int) * (tile as int)) by (nonlinear_arith)
                requires
                    wide == ((dim as int) + (tile as int) - 1) / (tile as int),
                    1 <= tile as int,
                    1 <= dim as int,
            ;
        }
    }
    wide as u32
}

/// The off-screen render target: recorded dimensions and the identity of
/// the current image, so binding sets can be checked against it.
pub struct TextureModel {
    pub width: u32,
    pub height: u32,
    /// Identity of the underlying image allocation: a fresh image gets a
    /// fresh identity, and a binding set is valid only for the identity it
    /// was built against.
    pub id: Ghost<int>,
}

/// Mathematical model of the GPU-visible camera pose mirror.
pub ghost struct UniformM {
    pub origin: V3i,
    pub view_direction: V3i,
    pub up: V3i,
}

/// The pose a camera state mirrors into the uniform buffer.
pub open spec fn s_uniform_of(c: CameraM) -> UniformM {
    UniformM { origin: s_eye_pos(c), view_direction: s_eye_dir(c), up: s_up_dir(c) }
}

/// The contents of the camera uniform buffer: the derived world-space pose.
#[derive(Clone, Copy, Debug, PartialEq, Eq, Structural)]
pub struct CameraUniform {
    pub origin: V3,
    pub view_direction: V3,
    pub up: V3,
}

impl View for CameraUniform {
    type V = UniformM;

    open spec fn view(&self) -> UniformM {
        UniformM { origin: self.origin@, view_direction: self.view_direction@, up: self.up@ }
    }
}

impl CameraUniform {
    /// Derive the uniform contents from a camera state.
    pub fn from_camera(camera: &ArcballCamera) -> (r: CameraUniform)
        requires
            s_cam_wf(camera@),
        ensures
            r@ == s_uniform_of(camera@),
    {
        CameraUniform {
            origin: camera.eye_pos(),
            view_direction: camera.eye_dir(),
            up: camera.up_dir(),
        }
    }
}

/// The scene compute stage: camera, render target, compute binding set and
/// uniform mirror, plus the pointer sample tracked between drag events.
pub struct Scene {
    pub camera: ArcballCamera,
    pub texture: TextureModel,
    /// Which image the compute binding set references. Valid only while it
    /// equals the live texture's identity.
    pub bind_texture_id: Ghost<int>,
    /// The last pose written to the GPU-visible uniform buffer.
    pub camera_uniform: CameraUniform,
    /// The previous pointer sample of the current drag, if one exists.
    pub prev_pointer_pos: Option<(i64, i64)>,
    /// Identity source for the next image allocation.
    pub next_texture_id: Ghost<int>,
}

/// Scene invariant: the camera is well formed, the target is at least one
/// pixel in each dimension, the compute binding set references the live
/// image, the uniform mirror holds the current pose, and any tracked
/// pointer sample is clamped.
pub open spec fn s_scene_wf(s: Scene) -> bool {
    &&& s_cam_wf(s.camera@)
    &&& 1 <= s.texture.width
    &&& 1 <= s.texture.height
    &&& s.bind_texture_id@ == s.texture.id@
    &&& s.texture.id@ < s.next_texture_id@
    &&& s.camera_uniform@ == s_uniform_of(s.camera@)
    &&& match s.prev_pointer_pos {
        Option::Some(p) => -PTR_LIM <= p.0 <= PTR_LIM && -PTR_LIM <= p.1 <= PTR_LIM,
        Option::None => true,
    }
}

impl Scene {
    /// Build the stage: a camera looking at `center` zoomed one step out
    /// (as the interactive default), a render target covering the clamped
    /// surface size, a binding set for that target, and the initial
    /// uniform contents.
    pub fn new(center: V3, zoom_sensitivity: i64, width: u32, height: u32) -> (r: Scene)
        ensures
            s_scene_wf(r),
            r.camera@ == s_cam_zoom(
                s_cam_new(
                    center@,
                    zoom_sensitivity as int,
                    s_px_fx(width as int),
                    s_px_fx(height as int),
                ),
                -FX_ONE as int,
                FX_ONE as int,
            ),
            r.texture.width == if width >= 1 {
                width
            } else {
                1u32
            },
            r.texture.height == if height >= 1 {
                height
            } else {
                1u32
            },
            r.prev_pointer_pos is None,
            r.camera_uniform@ == s_uniform_of(r.camera@),
    {
        let mut camera = ArcballCamera::new(center, zoom_sensitivity, px_to_fx(width), px_to_fx(height));
        camera.zoom(-FX_ONE, FX_ONE);
        let camera_uniform = CameraUniform::from_camera(&camera);
        let w1: u32 = if width >= 1 {
            width
        } else {
            1
        };
        let h1: u32 = if height >= 1 {
            height
        } else {
            1
        };
        Scene {
            camera,
            texture: TextureModel { width: w1, height: h1, id: Ghost(0int) },
            bind_texture_id: Ghost(0int),
            camera_uniform,
            prev_pointer_pos: Option::None,
            next_texture_id: Ghost(1int),
        }
    }

    /// The workgroup grid of one compute dispatch: enough tiles to cover
    /// every pixel of the render target in x and y, one layer in z.
    pub fn render(&self) -> (r: (u32, u32, u32))
        requires
            s_scene_wf(*self),
        ensures
            r.0 as int == s_tile_count(self.texture.width as int, TILE_SIDE as int),
            r.1 as int == s_tile_count(self.texture.height as int, TILE_SIDE as int),
            r.2 == 1u32,
            1 <= r.0 && 1 <= r.1,
    {
        let x = workgroup_count(self.texture.width, TILE_SIDE);
        let y = workgroup_count(self.texture.height, TILE_SIDE);
        (x, y, 1)
    }

    /// Rebuild the render target at the clamped size, rebuild the compute
    /// binding set against the fresh image, propagate the new viewport to
    /// the camera and push a fresh pose write. The pose itself is
    /// untouched.
    pub fn resize_texture(&mut self, width: u32, height: u32)
        requires
            s_scene_wf(*old(self)),
        ensures
            s_scene_wf(*final(self)),
            final(self).texture.width == if width >= 1 {
                width
            } else {
                1u32
            },
            final(self).texture.height == if height >= 1 {
                height
            } else {
                1u32
            },
            final(self).texture.id@ != old(self).texture.id@,
            final(self).bind_texture_id@ == final(self).texture.id@,
            s_eye_pos(final(self).camera@) == s_eye_pos(old(self).camera@),
            s_eye_dir(final(self).camera@) == s_eye_dir(old(self).camera@),
            s_up_dir(final(self).camera@) == s_up_dir(old(self).camera@),
            final(self).camera@.screen_w == s_clamp(
                s_px_fx(if width >= 1 {
                    width as int
                } else {
                    1
                }),
                SCREEN_MIN as int,
                SCREEN_MAX as int,
            ),
            final(self).camera@.screen_h == s_clamp(
                s_px_fx(if height >= 1 {
                    height as int
                } else {
                    1
                }),
                SCREEN_MIN as int,
                SCREEN_MAX as int,
            ),
            final(self).prev_pointer_pos == old(self).prev_pointer_pos,
            final(self).camera_uniform@ == s_uniform_of(final(self).camera@),
    {
        let w1: u32 = if width >= 1 {
            width
        } else {
            1
        };
        let h1: u32 = if height >= 1 {
            height
        } else {
            1
        };
        let ghost fresh_id: int = self.next_texture_id@;
        // The old image is discarded and a new one allocated: a fresh
        // identity, never zero-sized.
        self.texture = TextureModel { width: w1, height: h1, id: Ghost(fresh_id) };
        self.next_texture_id = Ghost(fresh_id + 1);
        // The compute binding set is rebuilt against the fresh image in the
        // same step: no state with a stale reference is ever visible.
        self.bind_texture_id = Ghost(fresh_id);
        self.camera.update_screen(px_to_fx(w1), px_to_fx(h1));
        self.update_camera();
    }

    /// Overwrite the uniform mirror with the current pose. Models the
    /// in-place, full-size buffer write enqueued for the next dispatch.
    pub fn update_camera(&mut self)
        requires
            s_cam_wf(old(self).camera@),
        ensures
            *final(self) == (Scene {
                camera_uniform: final(self).camera_uniform,
                ..*old(self)
            }),
            final(self).camera_uniform@ == s_uniform_of(old(self).camera@),
    {
        self.camera_uniform = CameraUniform::from_camera(&self.camera);
    }

    /// Replace the camera by a freshly constructed one with the same
    /// center, sensitivity and viewport, zoomed one step out, and push the
    /// restored pose.
    pub fn reset_camera(&mut self)
        requires
            s_scene_wf(*old(self)),
        ensures
            s_scene_wf(*final(self)),
            final(self).camera@ == s_cam_zoom(
                s_cam_new(
                    old(self).camera@.center,
                    old(self).camera@.zoom_speed,
                    old(self).camera@.screen_w,
                    old(self).camera@.screen_h,
                ),
                -FX_ONE as int,
                FX_ONE as int,
            ),
            final(self).texture == old(self).texture,
            final(self).bind_texture_id == old(self).bind_texture_id,
            final(self).prev_pointer_pos == old(self).prev_pointer_pos,
            final(self).camera_uniform@ == s_uniform_of(final(self).camera@),
    {
        self.camera.reset();
        self.camera.zoom(-FX_ONE, FX_ONE);
        self.update_camera();
    }

    /// Zoom by one scroll step and push the new pose.
    pub fn on_zoom(&mut self, delta: i64)
        requires
            s_scene_wf(*old(self)),
        ensures
            s_scene_wf(*final(self)),
            final(self).camera@ == s_cam_zoom(
                old(self).camera@,
                delta as int,
                ZOOM_TIME_STEP as int,
            ),
            final(self).texture == old(self).texture,
            final(self).bind_texture_id == old(self).bind_texture_id,
            final(self).prev_pointer_pos == old(self).prev_pointer_pos,
            final(self).camera_uniform@ == s_uniform_of(final(self).camera@),
    {
        self.camera.zoom(delta, ZOOM_TIME_STEP);
        self.update_camera();
    }

    /// Track one pointer sample and drive the requested gesture.
    ///
    /// The first sample after tracking begins is stored and not acted on;
    /// from then on each sample pairs with the previous one. Equal samples
    /// leave the camera exactly as it was.
    pub fn on_pointer_moved(&mut self, camera_op: CameraOperation, pos: (i64, i64))
        requires
            s_scene_wf(*old(self)),
        ensures
            s_scene_wf(*final(self)),
            final(self).texture == old(self).texture,
            final(self).bind_texture_id == old(self).bind_texture_id,
            final(self).prev_pointer_pos matches Option::Some(q) && q.0 as int == fx_clamp_spec(
                pos.0 as int,
            ) && q.1 as int == fx_clamp_spec(pos.1 as int),
            old(self).prev_pointer_pos is None ==> final(self).camera == old(self).camera
                && final(self).camera_uniform == old(self).camera_uniform,
            old(self).prev_pointer_pos matches Option::Some(p) ==> ((camera_op
                == CameraOperation::Rotate ==> final(self).camera@ == s_cam_rotate(
                old(self).camera@,
                p.0 as int,
                p.1 as int,
                fx_clamp_spec(pos.0 as int),
                fx_clamp_spec(pos.1 as int),
            ) && final(self).camera_uniform@ == s_uniform_of(final(self).camera@)) && (camera_op
                == CameraOperation::Pan ==> final(self).camera@ == s_cam_pan(
                old(self).camera@,
                fx_clamp_spec(pos.0 as int) - p.0 as int,
                fx_clamp_spec(pos.1 as int) - p.1 as int,
            ) && final(self).camera_uniform@ == s_uniform_of(final(self).camera@)) && (camera_op
                == CameraOperation::Idle ==> final(self).camera == old(self).camera
                && final(self).camera_uniform == old(self).camera_uniform)),
    {
        let cx = fx_clamp(pos.0, -PTR_LIM, PTR_LIM);
        let cy = fx_clamp(pos.1, -PTR_LIM, PTR_LIM);
        match self.prev_pointer_pos {
            Option::None => {
                self.prev_pointer_pos = Option::Some((cx, cy));
            },
            Option::Some(prev) => {
                match camera_op {
                    CameraOperation::Rotate => {
                        self.camera.rotate(prev, (cx, cy));
                        self.update_camera();
                    },
                    CameraOperation::Pan => {
                        self.camera.pan((cx - prev.0, cy - prev.1));
                        self.update_camera();
                    },
                    CameraOperation::Idle => {},
                }
                self.prev_pointer_pos = Option::Some((cx, cy));
            },
        }
    }
}

/// A pointer coordinate as stored after clamping.
pub open spec fn fx_clamp_spec(p: int) -> int {
    s_clamp(p, -PTR_LIM as int, PTR_LIM as int)
}

} // verus!
