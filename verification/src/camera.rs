//! The arcball camera: a pure state machine from pointer, scroll and reset
//! operations to a camera pose.
//!
//! Pixel-space gesture samples are projected onto a unit hemisphere over the
//! viewport; the rotation carrying one projected sample to the other is
//! composed onto the current orientation. Zoom moves the camera along the
//! view direction with a strictly positive floor on the distance; pan moves
//! the look-at center in the plane spanned by the camera's right and up
//! axes. Every input is clamped at this boundary, so every operation is
//! total and infallible.

use vstd::prelude::*;

use crate::fixed::FX_ONE;
use crate::fixed::fx_clamp;
use crate::fixed::fx_div;
use crate::fixed::fx_mul;
use crate::fixed::isqrt;
use crate::fixed::lemma_fx_div_unit;
use crate::fixed::lemma_fx_mul_bound;
use crate::fixed::lemma_fx_mul_one;
use crate::fixed::lemma_isqrt_mono;
use crate::fixed::lemma_isqrt_square;
use crate::fixed::lemma_tdiv_abs_le;
use crate::fixed::lemma_tdiv_sign;
use crate::fixed::s_clamp;
use crate::fixed::s_fx_div;
use crate::fixed::s_fx_mul;
use crate::fixed::spec_isqrt;
use crate::quat::Quat;
use crate::quat::Quati;
use crate::quat::s_quat_bounded;
use crate::quat::s_quat_conj;
use crate::quat::s_quat_identity;
use crate::quat::s_quat_mul;
use crate::quat::s_quat_renorm;
use crate::quat::s_quat_rotate_vec;
use crate::vec3::V3;
use crate::vec3::V3i;
use crate::vec3::s_v3_add;
use crate::vec3::s_v3_bounded;
use crate::vec3::s_v3_clamp;
use crate::vec3::s_v3_cross;
use crate::vec3::s_v3_dot;
use crate::vec3::s_v3_scale;

verus! {

/// The distance a fresh camera starts at: one unit.
pub const DEFAULT_DISTANCE: i64 = 65536;

/// The strictly positive floor of the camera distance (about 0.01 units):
/// zoom can never reach or cross the look-at center.
pub const MIN_DISTANCE: i64 = 655;

/// The ceiling of the camera distance (32768 units).
pub const MAX_DISTANCE: i64 = 2147483648;

/// Bound on every component of the look-at center (32768 units).
pub const CENTER_LIM: i64 = 2147483648;

/// Smallest accepted viewport extent: one pixel.
pub const SCREEN_MIN: i64 = 65536;

/// Largest accepted viewport extent: 2^20 pixels.
pub const SCREEN_MAX: i64 = 68719476736;

/// Bound on accepted pointer coordinates (2^20 pixels).
pub const PTR_LIM: i64 = 68719476736;

/// Bound on the normalized gesture coordinates: eight viewport radii.
pub const NDC_LIM: i64 = 524288;

/// Bound on one scroll step (16384 units).
pub const DELTA_LIM: i64 = 1073741824;

/// Largest zoom sensitivity: 16 units per scroll unit and second.
pub const SPEED_MAX: i64 = 1048576;

/// Largest time step fed to zoom: 16 seconds.
pub const TIME_MAX: i64 = 1048576;

/// Which gesture a pointer drag currently drives.
#[derive(Clone, Copy, Debug, PartialEq, Eq, Structural)]
pub enum CameraOperation {
    Rotate,
    Pan,
    Idle,
}

/// Mathematical model of the camera state.
pub ghost struct CameraM {
    pub center: V3i,
    pub distance: int,
    pub rot: Quati,
    pub screen_w: int,
    pub screen_h: int,
    pub zoom_speed: int,
}

/// The arcball camera state: look-at center, distance from it, orientation,
/// viewport extent and zoom sensitivity, all in fixed point.
#[derive(Clone, Copy, Debug, PartialEq, Eq, Structural)]
pub struct ArcballCamera {
    pub center: V3,
    pub distance: i64,
    pub rot: Quat,
    pub screen_w: i64,
    pub screen_h: i64,
    pub zoom_speed: i64,
}

impl View for ArcballCamera {
    type V = CameraM;

    open spec fn view(&self) -> CameraM {
        CameraM {
            center: self.center@,
            distance: self.distance as int,
            rot: self.rot@,
            screen_w: self.screen_w as int,
            screen_h: self.screen_h as int,
            zoom_speed: self.zoom_speed as int,
        }
    }
}

/// Well-formedness: every field within the bounds the operations preserve.
pub open spec fn s_cam_wf(c: CameraM) -> bool {
    &&& s_v3_bounded(c.center, CENTER_LIM as int)
    &&& MIN_DISTANCE <= c.distance <= MAX_DISTANCE
    &&& s_quat_bounded(c.rot, FX_ONE as int)
    &&& SCREEN_MIN <= c.screen_w <= SCREEN_MAX
    &&& SCREEN_MIN <= c.screen_h <= SCREEN_MAX
    &&& 0 <= c.zoom_speed <= SPEED_MAX
}

/// A fresh camera: clamped center and viewport, default distance, identity
/// orientation.
pub open spec fn s_cam_new(center: V3i, zoom_speed: int, w: int, h: int) -> CameraM {
    CameraM {
        center: s_v3_clamp(center, CENTER_LIM as int),
        distance: DEFAULT_DISTANCE as int,
        rot: s_quat_identity(),
        screen_w: s_clamp(w, SCREEN_MIN as int, SCREEN_MAX as int),
        screen_h: s_clamp(h, SCREEN_MIN as int, SCREEN_MAX as int),
        zoom_speed: s_clamp(zoom_speed, 0, SPEED_MAX as int),
    }
}

/// Projection of a pixel onto the unit hemisphere over the viewport.
/// A point outside the ball falls back to the equator: the normalized 2D
/// vector with zero height.
pub open spec fn s_arc_project(px: int, py: int, w: int, h: int) -> V3i {
    let cx = s_clamp(px, -PTR_LIM as int, PTR_LIM as int);
    let cy = s_clamp(py, -PTR_LIM as int, PTR_LIM as int);
    let nx = s_clamp(s_fx_div(2 * cx - w, w), -NDC_LIM as int, NDC_LIM as int);
    let ny = s_clamp(s_fx_div(h - 2 * cy, h), -NDC_LIM as int, NDC_LIM as int);
    let d2 = nx * nx + ny * ny;
    if d2 <= (FX_ONE as int) * (FX_ONE as int) {
        V3i { x: nx, y: ny, z: spec_isqrt((FX_ONE as int) * (FX_ONE as int) - d2) }
    } else {
        let len = spec_isqrt(d2);
        V3i { x: s_fx_div(nx, len), y: s_fx_div(ny, len), z: 0 }
    }
}

/// The quaternion carrying one projected sample to the other:
/// scalar part the dot product, vector part the cross product.
pub open spec fn s_arc_quat(a: V3i, b: V3i) -> Quati {
    Quati {
        w: s_v3_dot(a, b),
        x: s_v3_cross(a, b).x,
        y: s_v3_cross(a, b).y,
        z: s_v3_cross(a, b).z,
    }
}

/// The rotate operation on the model.
pub open spec fn s_cam_rotate(c: CameraM, px0: int, py0: int, px1: int, py1: int) -> CameraM {
    if px0 == px1 && py0 == py1 {
        c
    } else {
        let pa = s_arc_project(px0, py0, c.screen_w, c.screen_h);
        let pb = s_arc_project(px1, py1, c.screen_w, c.screen_h);
        let q = s_arc_quat(pa, pb);
        if q.w == 0 && q.x == 0 && q.y == 0 && q.z == 0 {
            c
        } else {
            CameraM { rot: s_quat_renorm(s_quat_mul(s_quat_renorm(q), c.rot)), ..c }
        }
    }
}

/// The zoom operation on the model: move along the view direction, the
/// distance clamped to its strictly positive interval.
pub open spec fn s_cam_zoom(c: CameraM, delta: int, time_step: int) -> CameraM {
    let d = s_clamp(delta, -DELTA_LIM as int, DELTA_LIM as int);
    let t = s_clamp(time_step, 0, TIME_MAX as int);
    let amount = s_fx_mul(s_fx_mul(d, c.zoom_speed), t);
    CameraM {
        distance: s_clamp(c.distance - amount, MIN_DISTANCE as int, MAX_DISTANCE as int),
        ..c
    }
}

/// The pan operation on the model: move the look-at center in the plane
/// spanned by the camera's right and up axes, scaled by the current
/// distance so panning feels the same at any zoom level.
pub open spec fn s_cam_pan(c: CameraM, dx: int, dy: int) -> CameraM {
    let cdx = s_clamp(dx, -PTR_LIM as int, PTR_LIM as int);
    let cdy = s_clamp(dy, -PTR_LIM as int, PTR_LIM as int);
    let mx = s_clamp(
        s_fx_mul(s_fx_div(cdx, c.screen_h), c.distance),
        -CENTER_LIM as int,
        CENTER_LIM as int,
    );
    let my = s_clamp(
        s_fx_mul(s_fx_div(cdy, c.screen_h), c.distance),
        -CENTER_LIM as int,
        CENTER_LIM as int,
    );
    let right = s_quat_rotate_vec(s_quat_conj(c.rot), V3i { x: FX_ONE as int, y: 0, z: 0 });
    let up = s_quat_rotate_vec(s_quat_conj(c.rot), V3i { x: 0, y: FX_ONE as int, z: 0 });
    let motion = s_v3_add(s_v3_scale(-mx, right), s_v3_scale(my, up));
    CameraM { center: s_v3_clamp(s_v3_add(c.center, motion), CENTER_LIM as int), ..c }
}

/// Unit offset from the look-at center toward the camera.
pub open spec fn s_eye_offset(c: CameraM) -> V3i {
    s_quat_rotate_vec(s_quat_conj(c.rot), V3i { x: 0, y: 0, z: FX_ONE as int })
}

/// World-space camera position.
pub open spec fn s_eye_pos(c: CameraM) -> V3i {
    s_v3_add(c.center, s_v3_scale(c.distance, s_eye_offset(c)))
}

/// World-space view direction.
pub open spec fn s_eye_dir(c: CameraM) -> V3i {
    s_quat_rotate_vec(s_quat_conj(c.rot), V3i { x: 0, y: 0, z: -FX_ONE as int })
}

/// World-space up direction.
pub open spec fn s_up_dir(c: CameraM) -> V3i {
    s_quat_rotate_vec(s_quat_conj(c.rot), V3i { x: 0, y: FX_ONE as int, z: 0 })
}

/// Project a pixel onto the hemisphere over a `w` by `h` viewport.
fn arc_project(px: i64, py: i64, w: i64, h: i64) -> (r: V3)
    requires
        SCREEN_MIN <= w <= SCREEN_MAX,
        SCREEN_MIN <= h <= SCREEN_MAX,
    ensures
        r@ == s_arc_project(px as int, py as int, w as int, h as int),
        s_v3_bounded(r@, FX_ONE as int),
{
    let cx = fx_clamp(px, -PTR_LIM, PTR_LIM);
    let cy = fx_clamp(py, -PTR_LIM, PTR_LIM);
    let nx = fx_clamp(fx_div(2 * cx - w, w), -NDC_LIM, NDC_LIM);
    let ny = fx_clamp(fx_div(h - 2 * cy, h), -NDC_LIM, NDC_LIM);
    proof {
        assert(0 <= (nx as int) * (nx as int) <= (NDC_LIM as int) * (NDC_LIM as int)) by (
        nonlinear_arith)
            requires
                -NDC_LIM <= nx <= NDC_LIM,
        ;
        assert(0 <= (ny as int) * (ny as int) <= (NDC_LIM as int) * (NDC_LIM as int)) by (
        nonlinear_arith)
            requires
                -NDC_LIM <= ny <= NDC_LIM,
        ;
    }
    let xx: i64 = nx * nx;
    let yy: i64 = ny * ny;
    let d2: i64 = xx + yy;
    if d2 <= FX_ONE * FX_ONE {
        let zz = isqrt((FX_ONE * FX_ONE - d2) as u64);
        proof {
            lemma_isqrt_mono(
                (FX_ONE as int) * (FX_ONE as int) - d2,
                (FX_ONE as int) * (FX_ONE as int),
            );
            lemma_isqrt_square(FX_ONE as int);
            assert(-FX_ONE <= nx as int <= FX_ONE && -FX_ONE <= ny as int <= FX_ONE) by (
            nonlinear_arith)
                requires
                    (nx as int) * (nx as int) + (ny as int) * (ny as int) <= (FX_ONE as int) * (
                    FX_ONE as int),
                    (nx as int) * (nx as int) >= 0,
                    (ny as int) * (ny as int) >= 0,
            ;
        }
        V3 { x: nx, y: ny, z: zz as i64 }
    } else {
        let len = isqrt(d2 as u64);
        proof {
            lemma_isqrt_square(FX_ONE as int);
            lemma_isqrt_mono((FX_ONE as int) * (FX_ONE as int), d2 as int);
            assert(len >= FX_ONE);
            lemma_fx_div_unit(nx as int, d2 as int, len as int);
            lemma_fx_div_unit(ny as int, d2 as int, len as int);
        }
        V3 { x: fx_div(nx, len as i64), y: fx_div(ny, len as i64), z: 0 }
    }
}

impl ArcballCamera {
    /// A fresh camera looking at `center` from the default distance along
    /// the world z axis, with the given zoom sensitivity and viewport.
    pub fn new(center: V3, zoom_speed: i64, screen_w: i64, screen_h: i64) -> (r: ArcballCamera)
        ensures
            r@ == s_cam_new(center@, zoom_speed as int, screen_w as int, screen_h as int),
            s_cam_wf(r@),
    {
        ArcballCamera {
            center: center.clamp(CENTER_LIM),
            distance: DEFAULT_DISTANCE,
            rot: Quat::identity(),
            screen_w: fx_clamp(screen_w, SCREEN_MIN, SCREEN_MAX),
            screen_h: fx_clamp(screen_h, SCREEN_MIN, SCREEN_MAX),
            zoom_speed: fx_clamp(zoom_speed, 0, SPEED_MAX),
        }
    }

    /// Compose the rotation carrying the projection of `prev` to the
    /// projection of `curr` onto the current orientation. Equal samples are
    /// a no-op: the camera is left exactly as it was.
    pub fn rotate(&mut self, prev: (i64, i64), curr: (i64, i64))
        requires
            s_cam_wf(old(self)@),
        ensures
            final(self)@ == s_cam_rotate(
                old(self)@,
                prev.0 as int,
                prev.1 as int,
                curr.0 as int,
                curr.1 as int,
            ),
            s_cam_wf(final(self)@),
            prev == curr ==> *final(self) == *old(self),
            final(self).center == old(self).center,
            final(self).distance == old(self).distance,
            final(self).screen_w == old(self).screen_w,
            final(self).screen_h == old(self).screen_h,
            final(self).zoom_speed == old(self).zoom_speed,
    {
        if prev.0 == curr.0 && prev.1 == curr.1 {
            return ;
        }
        let pa = arc_project(prev.0, prev.1, self.screen_w, self.screen_h);
        let pb = arc_project(curr.0, curr.1, self.screen_w, self.screen_h);
        let d = pa.dot(pb);
        let cr = pa.cross(pb);
        if d == 0 && cr.x == 0 && cr.y == 0 && cr.z == 0 {
            return ;
        }
        let q = Quat { w: d, x: cr.x, y: cr.y, z: cr.z };
        let qn = q.renorm();
        self.rot = qn.mul(self.rot).renorm();
    }

    /// Move the look-at center in the camera's right/up plane, scaled by
    /// the current distance.
    pub fn pan(&mut self, delta: (i64, i64))
        requires
            s_cam_wf(old(self)@),
        ensures
            final(self)@ == s_cam_pan(old(self)@, delta.0 as int, delta.1 as int),
            s_cam_wf(final(self)@),
            final(self).distance == old(self).distance,
            final(self).rot == old(self).rot,
            final(self).screen_w == old(self).screen_w,
            final(self).screen_h == old(self).screen_h,
            final(self).zoom_speed == old(self).zoom_speed,
    {
        let cdx = fx_clamp(delta.0, -PTR_LIM, PTR_LIM);
        let cdy = fx_clamp(delta.1, -PTR_LIM, PTR_LIM);
        proof {
            lemma_gesture_div_bound(cdx as int, old(self)@.screen_h);
            lemma_gesture_div_bound(cdy as int, old(self)@.screen_h);
            lemma_pan_motion_bound(
                s_fx_div(cdx as int, old(self)@.screen_h),
                old(self)@.distance,
            );
            lemma_pan_motion_bound(
                s_fx_div(cdy as int, old(self)@.screen_h),
                old(self)@.distance,
            );
        }
        let mx = fx_clamp(
            fx_mul(fx_div(cdx, self.screen_h), self.distance),
            -CENTER_LIM,
            CENTER_LIM,
        );
        let my = fx_clamp(
            fx_mul(fx_div(cdy, self.screen_h), self.distance),
            -CENTER_LIM,
            CENTER_LIM,
        );
        let right = self.rot.conj().rotate_vec(V3 { x: FX_ONE, y: 0, z: 0 });
        let up = self.rot.conj().rotate_vec(V3 { x: 0, y: FX_ONE, z: 0 });
        proof {
            lemma_scaled_axis_bound(-(mx as int), right@.x);
            lemma_scaled_axis_bound(-(mx as int), right@.y);
            lemma_scaled_axis_bound(-(mx as int), right@.z);
            lemma_scaled_axis_bound(my as int, up@.x);
            lemma_scaled_axis_bound(my as int, up@.y);
            lemma_scaled_axis_bound(my as int, up@.z);
        }
        let motion = right.scale(-mx).add(up.scale(my));
        self.center = self.center.add(motion).clamp(CENTER_LIM);
    }

    /// Move the camera along the view direction. The distance stays within
    /// its strictly positive interval whatever the inputs; a non-positive
    /// `delta` never brings the camera closer.
    pub fn zoom(&mut self, delta: i64, time_step: i64)
        requires
            s_cam_wf(old(self)@),
        ensures
            final(self)@ == s_cam_zoom(old(self)@, delta as int, time_step as int),
            s_cam_wf(final(self)@),
            MIN_DISTANCE <= final(self).distance,
            delta <= 0 ==> final(self).distance >= old(self).distance,
            delta >= 0 ==> final(self).distance <= old(self).distance,
            final(self).center == old(self).center,
            final(self).rot == old(self).rot,
            final(self).screen_w == old(self).screen_w,
            final(self).screen_h == old(self).screen_h,
            final(self).zoom_speed == old(self).zoom_speed,
    {
        let d = fx_clamp(delta, -DELTA_LIM, DELTA_LIM);
        let t = fx_clamp(time_step, 0, TIME_MAX);
        proof {
            lemma_fx_mul_bound(d as int, old(self)@.zoom_speed, DELTA_LIM as int, 16);
            lemma_fx_mul_bound(
                s_fx_mul(d as int, old(self)@.zoom_speed),
                t as int,
                16 * DELTA_LIM as int,
                16,
            );
            lemma_zoom_sign(d as int, old(self)@.zoom_speed, t as int);
        }
        let a1 = fx_mul(d, self.zoom_speed);
        let amount = fx_mul(a1, t);
        self.distance = fx_clamp(self.distance - amount, MIN_DISTANCE, MAX_DISTANCE);
    }

    /// Record a new viewport extent for projecting future gestures. The
    /// pose is untouched: position, view direction and up direction read
    /// the same afterwards.
    pub fn update_screen(&mut self, w: i64, h: i64)
        requires
            s_cam_wf(old(self)@),
        ensures
            final(self)@.screen_w == s_clamp(w as int, SCREEN_MIN as int, SCREEN_MAX as int),
            final(self)@.screen_h == s_clamp(h as int, SCREEN_MIN as int, SCREEN_MAX as int),
            final(self).center == old(self).center,
            final(self).distance == old(self).distance,
            final(self).rot == old(self).rot,
            final(self).zoom_speed == old(self).zoom_speed,
            s_eye_pos(final(self)@) == s_eye_pos(old(self)@),
            s_eye_dir(final(self)@) == s_eye_dir(old(self)@),
            s_up_dir(final(self)@) == s_up_dir(old(self)@),
            s_cam_wf(final(self)@),
    {
        self.screen_w = fx_clamp(w, SCREEN_MIN, SCREEN_MAX);
        self.screen_h = fx_clamp(h, SCREEN_MIN, SCREEN_MAX);
    }

    /// Restore the default distance and the identity orientation, keeping
    /// the center, the viewport and the sensitivity: exactly re-construction
    /// with the same parameters.
    pub fn reset(&mut self)
        requires
            s_cam_wf(old(self)@),
        ensures
            final(self)@ == s_cam_new(
                old(self)@.center,
                old(self)@.zoom_speed,
                old(self)@.screen_w,
                old(self)@.screen_h,
            ),
            s_cam_wf(final(self)@),
            final(self).center == old(self).center,
            final(self).distance == DEFAULT_DISTANCE,
            final(self)@.rot == s_quat_identity(),
            final(self).screen_w == old(self).screen_w,
            final(self).screen_h == old(self).screen_h,
            final(self).zoom_speed == old(self).zoom_speed,
    {
        self.distance = DEFAULT_DISTANCE;
        self.rot = Quat::identity();
    }

    /// World-space camera position: center plus the rotated offset at the
    /// current distance.
    pub fn eye_pos(&self) -> (r: V3)
        requires
            s_cam_wf(self@),
        ensures
            r@ == s_eye_pos(self@),
            s_v3_bounded(r@, 16 * CENTER_LIM as int),
    {
        let offset = self.rot.conj().rotate_vec(V3 { x: 0, y: 0, z: FX_ONE });
        proof {
            lemma_scaled_axis_bound(self@.distance, offset@.x);
            lemma_scaled_axis_bound(self@.distance, offset@.y);
            lemma_scaled_axis_bound(self@.distance, offset@.z);
        }
        self.center.add(offset.scale(self.distance))
    }

    /// World-space view direction.
    pub fn eye_dir(&self) -> (r: V3)
        requires
            s_cam_wf(self@),
        ensures
            r@ == s_eye_dir(self@),
            s_v3_bounded(r@, 15 * FX_ONE),
    {
        self.rot.conj().rotate_vec(V3 { x: 0, y: 0, z: -FX_ONE })
    }

    /// World-space up direction.
    pub fn up_dir(&self) -> (r: V3)
        requires
            s_cam_wf(self@),
        ensures
            r@ == s_up_dir(self@),
            s_v3_bounded(r@, 15 * FX_ONE),
    {
        self.rot.conj().rotate_vec(V3 { x: 0, y: FX_ONE, z: 0 })
    }
}

/// The identity orientation rotates every vector to itself, exactly.
pub proof fn lemma_rotate_vec_identity(v: V3i)
    ensures
        s_quat_rotate_vec(s_quat_identity(), v) == v,
{
    lemma_fx_mul_one(v.x);
    lemma_fx_mul_one(v.y);
    lemma_fx_mul_one(v.z);
    lemma_fx_mul_one(FX_ONE as int);
}

/// With the identity orientation the camera sits on the world z axis
/// through the center: the eye lies at the center displaced by exactly the
/// current distance along z, looking down negative z with y up. So zooming
/// a camera that was never rotated moves the eye along that axis to the new
/// distance.
pub proof fn lemma_pose_at_identity(c: CameraM)
    requires
        c.rot == s_quat_identity(),
    ensures
        s_eye_pos(c) == (V3i { x: c.center.x, y: c.center.y, z: c.center.z + c.distance }),
        s_eye_dir(c) == (V3i { x: 0, y: 0, z: -(FX_ONE as int) }),
        s_up_dir(c) == (V3i { x: 0, y: FX_ONE as int, z: 0 }),
{
    assert(s_quat_conj(c.rot) == s_quat_identity());
    lemma_rotate_vec_identity(V3i { x: 0, y: 0, z: FX_ONE as int });
    lemma_rotate_vec_identity(V3i { x: 0, y: 0, z: -(FX_ONE as int) });
    lemma_rotate_vec_identity(V3i { x: 0, y: FX_ONE as int, z: 0 });
    lemma_fx_mul_one(c.distance);
}

/// A gesture coordinate divided by the viewport height keeps its bound,
/// since the height is at least one unit.
proof fn lemma_gesture_div_bound(a: int, h: int)
    requires
        -PTR_LIM <= a <= PTR_LIM,
        FX_ONE <= h,
    ensures
        -(PTR_LIM as int) <= s_fx_div(a, h) <= PTR_LIM as int,
{
    assert(-((PTR_LIM as int) * h) <= a * FX_ONE <= (PTR_LIM as int) * h) by (nonlinear_arith)
        requires
            -PTR_LIM <= a <= PTR_LIM,
            FX_ONE <= h,
    ;
    lemma_tdiv_abs_le(a * FX_ONE, h, PTR_LIM as int);
}

/// A pan factor (one gesture coordinate over the viewport height) times the
/// camera distance stays within the product of their bounds.
proof fn lemma_pan_motion_bound(t: int, distance: int)
    requires
        -PTR_LIM <= t <= PTR_LIM,
        0 <= distance <= MAX_DISTANCE,
    ensures
        -(PTR_LIM as int) * 32768 <= s_fx_mul(t, distance) <= (PTR_LIM as int) * 32768,
{
    lemma_fx_mul_bound(t, distance, PTR_LIM as int, 32768);
}

/// A clamped pan amount times a rotated unit-axis component stays within
/// fifteen times the amount's bound.
proof fn lemma_scaled_axis_bound(s: int, v: int)
    requires
        -CENTER_LIM <= s <= CENTER_LIM,
        -15 * FX_ONE <= v <= 15 * FX_ONE,
    ensures
        -15 * CENTER_LIM as int <= s_fx_mul(s, v) <= 15 * CENTER_LIM as int,
{
    lemma_fx_mul_bound(s, v, CENTER_LIM as int, 15);
    assert((CENTER_LIM as int) * 15 == 15 * CENTER_LIM as int) by (nonlinear_arith);
}

/// The zoom amount is non-positive when the scroll step is non-positive and
/// non-negative when it is non-negative.
proof fn lemma_zoom_sign(d: int, speed: int, t: int)
    requires
        speed >= 0,
        t >= 0,
    ensures
        d <= 0 ==> s_fx_mul(s_fx_mul(d, speed), t) <= 0,
        d >= 0 ==> s_fx_mul(s_fx_mul(d, speed), t) >= 0,
{
    if d <= 0 {
        assert(d * speed <= 0) by (nonlinear_arith)
            requires
                d <= 0,
                speed >= 0,
        ;
        lemma_tdiv_sign(d * speed, FX_ONE as int);
        let a1 = s_fx_mul(d, speed);
        assert(a1 * t <= 0) by (nonlinear_arith)
            requires
                a1 <= 0,
                t >= 0,
        ;
        lemma_tdiv_sign(a1 * t, FX_ONE as int);
    }
    if d >= 0 {
        assert(d * speed >= 0) by (nonlinear_arith)
            requires
                d >= 0,
                speed >= 0,
        ;
        lemma_tdiv_sign(d * speed, FX_ONE as int);
        let a1 = s_fx_mul(d, speed);
        assert(a1 * t >= 0) by (nonlinear_arith)
            requires
                a1 >= 0,
                t >= 0,
        ;
        lemma_tdiv_sign(a1 * t, FX_ONE as int);
    }
}

} // verus!
