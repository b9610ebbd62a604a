//! Fixed-point quaternions for the camera orientation.
//!
//! Orientation is kept as a quaternion that is renormalized after every
//! composition, so components stay bounded by one unit and repeated drags
//! cannot drift in magnitude.

use vstd::prelude::*;

use crate::fixed::FX_ONE;
use crate::fixed::fx_div;
use crate::fixed::fx_mul;
use crate::fixed::isqrt;
use crate::fixed::lemma_fx_mul_bound;
use crate::fixed::lemma_fx_div_unit;
use crate::fixed::s_fx_div;
use crate::fixed::s_fx_mul;
use crate::fixed::spec_isqrt;
use crate::vec3::V3;
use crate::vec3::V3i;
use crate::vec3::s_v3_bounded;

verus! {

/// Mathematical model of a quaternion: unbounded integer components.
pub ghost struct Quati {
    pub w: int,
    pub x: int,
    pub y: int,
    pub z: int,
}

/// A fixed-point quaternion `w + x i + y j + z k`.
#[derive(Clone, Copy, Debug, PartialEq, Eq, Structural)]
pub struct Quat {
    pub w: i64,
    pub x: i64,
    pub y: i64,
    pub z: i64,
}

impl View for Quat {
    type V = Quati;

    open spec fn view(&self) -> Quati {
        Quati { w: self.w as int, x: self.x as int, y: self.y as int, z: self.z as int }
    }
}

/// Every component lies in `[-c, c]`.
pub open spec fn s_quat_bounded(q: Quati, c: int) -> bool {
    &&& -c <= q.w <= c
    &&& -c <= q.x <= c
    &&& -c <= q.y <= c
    &&& -c <= q.z <= c
}

/// The identity rotation.
pub open spec fn s_quat_identity() -> Quati {
    Quati { w: FX_ONE as int, x: 0, y: 0, z: 0 }
}

/// The Hamilton product, every term scaled back to fixed point.
pub open spec fn s_quat_mul(a: Quati, b: Quati) -> Quati {
    Quati {
        w: s_fx_mul(a.w, b.w) - s_fx_mul(a.x, b.x) - s_fx_mul(a.y, b.y) - s_fx_mul(a.z, b.z),
        x: s_fx_mul(a.w, b.x) + s_fx_mul(a.x, b.w) + s_fx_mul(a.y, b.z) - s_fx_mul(a.z, b.y),
        y: s_fx_mul(a.w, b.y) - s_fx_mul(a.x, b.z) + s_fx_mul(a.y, b.w) + s_fx_mul(a.z, b.x),
        z: s_fx_mul(a.w, b.z) + s_fx_mul(a.x, b.y) - s_fx_mul(a.y, b.x) + s_fx_mul(a.z, b.w),
    }
}

/// The squared raw magnitude (in squared fixed-point units).
pub open spec fn s_quat_norm2(q: Quati) -> int {
    q.w * q.w + q.x * q.x + q.y * q.y + q.z * q.z
}

/// Renormalization: scale every component by `FX_ONE / |q|`; a zero
/// quaternion falls back to the identity.
pub open spec fn s_quat_renorm(q: Quati) -> Quati {
    let n = spec_isqrt(s_quat_norm2(q));
    if n <= 0 {
        s_quat_identity()
    } else {
        Quati {
            w: s_fx_div(q.w, n),
            x: s_fx_div(q.x, n),
            y: s_fx_div(q.y, n),
            z: s_fx_div(q.z, n),
        }
    }
}

/// The conjugate (inverse rotation for a unit quaternion).
pub open spec fn s_quat_conj(q: Quati) -> Quati {
    Quati { w: q.w, x: -q.x, y: -q.y, z: -q.z }
}

/// One row-times-vector entry of the rotation matrix of `q`, applied to `v`:
/// `m00 m01 m02` et cetera are the usual quaternion rotation matrix entries
/// in fixed point.
pub open spec fn s_quat_rotate_vec(q: Quati, v: V3i) -> V3i {
    let xx = s_fx_mul(q.x, q.x);
    let yy = s_fx_mul(q.y, q.y);
    let zz = s_fx_mul(q.z, q.z);
    let xy = s_fx_mul(q.x, q.y);
    let xz = s_fx_mul(q.x, q.z);
    let yz = s_fx_mul(q.y, q.z);
    let wx = s_fx_mul(q.w, q.x);
    let wy = s_fx_mul(q.w, q.y);
    let wz = s_fx_mul(q.w, q.z);
    let m00 = (FX_ONE as int) - 2 * (yy + zz);
    let m01 = 2 * (xy - wz);
    let m02 = 2 * (xz + wy);
    let m10 = 2 * (xy + wz);
    let m11 = (FX_ONE as int) - 2 * (xx + zz);
    let m12 = 2 * (yz - wx);
    let m20 = 2 * (xz - wy);
    let m21 = 2 * (yz + wx);
    let m22 = (FX_ONE as int) - 2 * (xx + yy);
    V3i {
        x: s_fx_mul(m00, v.x) + s_fx_mul(m01, v.y) + s_fx_mul(m02, v.z),
        y: s_fx_mul(m10, v.x) + s_fx_mul(m11, v.y) + s_fx_mul(m12, v.z),
        z: s_fx_mul(m20, v.x) + s_fx_mul(m21, v.y) + s_fx_mul(m22, v.z),
    }
}

impl Quat {
    /// The identity rotation.
    pub fn identity() -> (r: Quat)
        ensures
            r@ == s_quat_identity(),
            s_quat_bounded(r@, FX_ONE as int),
    {
        Quat { w: FX_ONE, x: 0, y: 0, z: 0 }
    }

    /// Hamilton product of two quaternions bounded by 16 units.
    pub fn mul(self, b: Quat) -> (r: Quat)
        requires
            s_quat_bounded(self@, 16 * FX_ONE),
            s_quat_bounded(b@, 16 * FX_ONE),
        ensures
            r@ == s_quat_mul(self@, b@),
            s_quat_bounded(r@, 1024 * FX_ONE),
    {
        proof {
            lemma_quat_term_bound(self@.w, b@.w);
            lemma_quat_term_bound(self@.w, b@.x);
            lemma_quat_term_bound(self@.w, b@.y);
            lemma_quat_term_bound(self@.w, b@.z);
            lemma_quat_term_bound(self@.x, b@.w);
            lemma_quat_term_bound(self@.x, b@.x);
            lemma_quat_term_bound(self@.x, b@.y);
            lemma_quat_term_bound(self@.x, b@.z);
            lemma_quat_term_bound(self@.y, b@.w);
            lemma_quat_term_bound(self@.y, b@.x);
            lemma_quat_term_bound(self@.y, b@.y);
            lemma_quat_term_bound(self@.y, b@.z);
            lemma_quat_term_bound(self@.z, b@.w);
            lemma_quat_term_bound(self@.z, b@.x);
            lemma_quat_term_bound(self@.z, b@.y);
            lemma_quat_term_bound(self@.z, b@.z);
        }
        Quat {
            w: fx_mul(self.w, b.w) - fx_mul(self.x, b.x) - fx_mul(self.y, b.y) - fx_mul(
                self.z,
                b.z,
            ),
            x: fx_mul(self.w, b.x) + fx_mul(self.x, b.w) + fx_mul(self.y, b.z) - fx_mul(
                self.z,
                b.y,
            ),
            y: fx_mul(self.w, b.y) - fx_mul(self.x, b.z) + fx_mul(self.y, b.w) + fx_mul(
                self.z,
                b.x,
            ),
            z: fx_mul(self.w, b.z) + fx_mul(self.x, b.y) - fx_mul(self.y, b.x) + fx_mul(
                self.z,
                b.w,
            ),
        }
    }

    /// Renormalize a quaternion bounded by 1024 units back to unit bound.
    pub fn renorm(self) -> (r: Quat)
        requires
            s_quat_bounded(self@, 1024 * FX_ONE),
        ensures
            r@ == s_quat_renorm(self@),
            s_quat_bounded(r@, FX_ONE as int),
    {
        proof {
            lemma_quat_square_bound(self@.w);
            lemma_quat_square_bound(self@.x);
            lemma_quat_square_bound(self@.y);
            lemma_quat_square_bound(self@.z);
        }
        let ww: i64 = fx_raw_square(self.w);
        let xx: i64 = fx_raw_square(self.x);
        let yy: i64 = fx_raw_square(self.y);
        let zz: i64 = fx_raw_square(self.z);
        let n2: i64 = ww + xx + yy + zz;
        let n: u64 = isqrt(n2 as u64);
        if n == 0 {
            proof {
                assert(spec_isqrt(s_quat_norm2(self@)) == 0);
            }
            Quat::identity()
        } else {
            proof {
                lemma_fx_div_unit(self@.w, s_quat_norm2(self@), n as int);
                lemma_fx_div_unit(self@.x, s_quat_norm2(self@), n as int);
                lemma_fx_div_unit(self@.y, s_quat_norm2(self@), n as int);
                lemma_fx_div_unit(self@.z, s_quat_norm2(self@), n as int);
            }
            Quat {
                w: fx_div(self.w, n as i64),
                x: fx_div(self.x, n as i64),
                y: fx_div(self.y, n as i64),
                z: fx_div(self.z, n as i64),
            }
        }
    }

    /// The conjugate.
    pub fn conj(self) -> (r: Quat)
        requires
            s_quat_bounded(self@, FX_ONE as int),
        ensures
            r@ == s_quat_conj(self@),
            s_quat_bounded(r@, FX_ONE as int),
    {
        Quat { w: self.w, x: -self.x, y: -self.y, z: -self.z }
    }

    /// Rotate a vector bounded by one unit by a quaternion bounded by one
    /// unit, through the quaternion's rotation matrix.
    pub fn rotate_vec(self, v: V3) -> (r: V3)
        requires
            s_quat_bounded(self@, FX_ONE as int),
            s_v3_bounded(v@, FX_ONE as int),
        ensures
            r@ == s_quat_rotate_vec(self@, v@),
            s_v3_bounded(r@, 15 * FX_ONE),
    {
        proof {
            lemma_unit_term_bound(self@.x, self@.x);
            lemma_unit_term_bound(self@.y, self@.y);
            lemma_unit_term_bound(self@.z, self@.z);
            lemma_unit_term_bound(self@.x, self@.y);
            lemma_unit_term_bound(self@.x, self@.z);
            lemma_unit_term_bound(self@.y, self@.z);
            lemma_unit_term_bound(self@.w, self@.x);
            lemma_unit_term_bound(self@.w, self@.y);
            lemma_unit_term_bound(self@.w, self@.z);
        }
        let xx: i64 = fx_mul(self.x, self.x);
        let yy: i64 = fx_mul(self.y, self.y);
        let zz: i64 = fx_mul(self.z, self.z);
        let xy: i64 = fx_mul(self.x, self.y);
        let xz: i64 = fx_mul(self.x, self.z);
        let yz: i64 = fx_mul(self.y, self.z);
        let wx: i64 = fx_mul(self.w, self.x);
        let wy: i64 = fx_mul(self.w, self.y);
        let wz: i64 = fx_mul(self.w, self.z);
        let m00: i64 = FX_ONE - 2 * (yy + zz);
        let m01: i64 = 2 * (xy - wz);
        let m02: i64 = 2 * (xz + wy);
        let m10: i64 = 2 * (xy + wz);
        let m11: i64 = FX_ONE - 2 * (xx + zz);
        let m12: i64 = 2 * (yz - wx);
        let m20: i64 = 2 * (xz - wy);
        let m21: i64 = 2 * (yz + wx);
        let m22: i64 = FX_ONE - 2 * (xx + yy);
        proof {
            lemma_row_term_bound(m00 as int, v@.x);
            lemma_row_term_bound(m01 as int, v@.y);
            lemma_row_term_bound(m02 as int, v@.z);
            lemma_row_term_bound(m10 as int, v@.x);
            lemma_row_term_bound(m11 as int, v@.y);
            lemma_row_term_bound(m12 as int, v@.z);
            lemma_row_term_bound(m20 as int, v@.x);
            lemma_row_term_bound(m21 as int, v@.y);
            lemma_row_term_bound(m22 as int, v@.z);
        }
        V3 {
            x: fx_mul(m00, v.x) + fx_mul(m01, v.y) + fx_mul(m02, v.z),
            y: fx_mul(m10, v.x) + fx_mul(m11, v.y) + fx_mul(m12, v.z),
            z: fx_mul(m20, v.x) + fx_mul(m21, v.y) + fx_mul(m22, v.z),
        }
    }
}

/// The raw square of a component bounded by 1024 units fits far below
/// `i64::MAX`.
proof fn lemma_quat_square_bound(a: int)
    requires
        -1024 * FX_ONE <= a <= 1024 * FX_ONE,
    ensures
        0 <= a * a <= 0x10_0000_0000_0000int,
{
    assert(0 <= a * a <= 0x10_0000_0000_0000int) by (nonlinear_arith)
        requires
            -1024 * FX_ONE <= a <= 1024 * FX_ONE,
    ;
}

/// The exact raw square of a bounded scalar.
fn fx_raw_square(a: i64) -> (r: i64)
    requires
        -1024 * FX_ONE <= a <= 1024 * FX_ONE,
    ensures
        r as int == (a as int) * (a as int),
        0 <= r <= 0x10_0000_0000_0000i64,
{
    proof {
        lemma_quat_square_bound(a as int);
    }
    a * a
}

/// One product term of quaternion components bounded by 16 units.
proof fn lemma_quat_term_bound(a: int, b: int)
    requires
        -16 * FX_ONE <= a <= 16 * FX_ONE,
        -16 * FX_ONE <= b <= 16 * FX_ONE,
    ensures
        -256 * FX_ONE <= s_fx_mul(a, b) <= 256 * FX_ONE,
{
    lemma_fx_mul_bound(a, b, 16 * FX_ONE as int, 16);
    assert(16 * (FX_ONE as int) * 16 == 256 * (FX_ONE as int)) by (nonlinear_arith);
}

/// One product term of unit-bounded components stays within one unit.
proof fn lemma_unit_term_bound(a: int, b: int)
    requires
        -(FX_ONE as int) <= a <= FX_ONE as int,
        -(FX_ONE as int) <= b <= FX_ONE as int,
    ensures
        -(FX_ONE as int) <= s_fx_mul(a, b) <= FX_ONE as int,
{
    lemma_fx_mul_bound(a, b, FX_ONE as int, 1);
    assert((FX_ONE as int) * 1 == FX_ONE as int) by (nonlinear_arith);
}

/// A matrix entry bounded by 5 units times a unit-bounded component stays
/// within 5 units.
proof fn lemma_row_term_bound(m: int, v: int)
    requires
        -5 * FX_ONE <= m <= 5 * FX_ONE,
        -(FX_ONE as int) <= v <= FX_ONE as int,
    ensures
        -5 * FX_ONE <= s_fx_mul(m, v) <= 5 * FX_ONE,
{
    lemma_fx_mul_bound(m, v, 5 * FX_ONE as int, 1);
    assert(5 * (FX_ONE as int) * 1 == 5 * (FX_ONE as int)) by (nonlinear_arith);
}

} // verus!
