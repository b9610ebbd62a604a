//! Three-component fixed-point vectors.
//!
//! `V3` is the executable vector; its view `V3i` carries the components as
//! unbounded integers, and every operation is specified as an exact formula
//! over that view.

use vstd::prelude::*;

use crate::fixed::FX_ABS_LIM;
use crate::fixed::FX_ONE;
use crate::fixed::fx_clamp;
use crate::fixed::fx_mul;
use crate::fixed::lemma_fx_mul_bound;
use crate::fixed::s_clamp;
use crate::fixed::s_fx_mul;

verus! {

/// Mathematical model of a vector: unbounded integer components.
pub ghost struct V3i {
    pub x: int,
    pub y: int,
    pub z: int,
}

/// A fixed-point vector.
#[derive(Clone, Copy, Debug, PartialEq, Eq, Structural)]
pub struct V3 {
    pub x: i64,
    pub y: i64,
    pub z: i64,
}

impl View for V3 {
    type V = V3i;

    open spec fn view(&self) -> V3i {
        V3i { x: self.x as int, y: self.y as int, z: self.z as int }
    }
}

/// Every component lies in `[-c, c]`.
pub open spec fn s_v3_bounded(v: V3i, c: int) -> bool {
    &&& -c <= v.x <= c
    &&& -c <= v.y <= c
    &&& -c <= v.z <= c
}

pub open spec fn s_v3_add(a: V3i, b: V3i) -> V3i {
    V3i { x: a.x + b.x, y: a.y + b.y, z: a.z + b.z }
}

pub open spec fn s_v3_scale(s: int, v: V3i) -> V3i {
    V3i { x: s_fx_mul(s, v.x), y: s_fx_mul(s, v.y), z: s_fx_mul(s, v.z) }
}

pub open spec fn s_v3_clamp(v: V3i, c: int) -> V3i {
    V3i { x: s_clamp(v.x, -c, c), y: s_clamp(v.y, -c, c), z: s_clamp(v.z, -c, c) }
}

/// The fixed-point dot product: the sum of the three scaled products.
pub open spec fn s_v3_dot(a: V3i, b: V3i) -> int {
    s_fx_mul(a.x, b.x) + s_fx_mul(a.y, b.y) + s_fx_mul(a.z, b.z)
}

/// The fixed-point cross product.
pub open spec fn s_v3_cross(a: V3i, b: V3i) -> V3i {
    V3i {
        x: s_fx_mul(a.y, b.z) - s_fx_mul(a.z, b.y),
        y: s_fx_mul(a.z, b.x) - s_fx_mul(a.x, b.z),
        z: s_fx_mul(a.x, b.y) - s_fx_mul(a.y, b.x),
    }
}

impl V3 {
    /// The zero vector.
    pub fn zero() -> (r: V3)
        ensures
            r@ == (V3i { x: 0, y: 0, z: 0 }),
    {
        V3 { x: 0, y: 0, z: 0 }
    }

    /// Component-wise sum.
    pub fn add(self, b: V3) -> (r: V3)
        requires
            s_v3_bounded(self@, FX_ABS_LIM as int),
            s_v3_bounded(b@, FX_ABS_LIM as int),
        ensures
            r@ == s_v3_add(self@, b@),
    {
        V3 { x: self.x + b.x, y: self.y + b.y, z: self.z + b.z }
    }

    /// Component-wise scaling by a fixed-point factor.
    pub fn scale(self, s: i64) -> (r: V3)
        requires
            s_v3_bounded(self@, FX_ABS_LIM as int),
            -FX_ABS_LIM <= s <= FX_ABS_LIM,
        ensures
            r@ == s_v3_scale(s as int, self@),
    {
        V3 { x: fx_mul(s, self.x), y: fx_mul(s, self.y), z: fx_mul(s, self.z) }
    }

    /// Clamp every component into `[-c, c]`.
    pub fn clamp(self, c: i64) -> (r: V3)
        requires
            0 <= c,
        ensures
            r@ == s_v3_clamp(self@, c as int),
            s_v3_bounded(r@, c as int),
    {
        V3 { x: fx_clamp(self.x, -c, c), y: fx_clamp(self.y, -c, c), z: fx_clamp(self.z, -c, c) }
    }

    /// Fixed-point dot product of vectors bounded by 16 units.
    pub fn dot(self, b: V3) -> (r: i64)
        requires
            s_v3_bounded(self@, 16 * FX_ONE),
            s_v3_bounded(b@, 16 * FX_ONE),
        ensures
            r as int == s_v3_dot(self@, b@),
            -768 * FX_ONE <= r <= 768 * FX_ONE,
    {
        proof {
            lemma_v3_term_bound(self@.x, b@.x);
            lemma_v3_term_bound(self@.y, b@.y);
            lemma_v3_term_bound(self@.z, b@.z);
        }
        fx_mul(self.x, b.x) + fx_mul(self.y, b.y) + fx_mul(self.z, b.z)
    }

    /// Fixed-point cross product of vectors bounded by 16 units.
    pub fn cross(self, b: V3) -> (r: V3)
        requires
            s_v3_bounded(self@, 16 * FX_ONE),
            s_v3_bounded(b@, 16 * FX_ONE),
        ensures
            r@ == s_v3_cross(self@, b@),
            s_v3_bounded(r@, 512 * FX_ONE),
    {
        proof {
            lemma_v3_term_bound(self@.y, b@.z);
            lemma_v3_term_bound(self@.z, b@.y);
            lemma_v3_term_bound(self@.z, b@.x);
            lemma_v3_term_bound(self@.x, b@.z);
            lemma_v3_term_bound(self@.x, b@.y);
            lemma_v3_term_bound(self@.y, b@.x);
        }
        V3 {
            x: fx_mul(self.y, b.z) - fx_mul(self.z, b.y),
            y: fx_mul(self.z, b.x) - fx_mul(self.x, b.z),
            z: fx_mul(self.x, b.y) - fx_mul(self.y, b.x),
        }
    }
}

/// One product term of a dot or cross product of 16-unit vectors stays
/// within 256 units.
proof fn lemma_v3_term_bound(a: int, b: int)
    requires
        -16 * FX_ONE <= a <= 16 * FX_ONE,
        -16 * FX_ONE <= b <= 16 * FX_ONE,
    ensures
        -256 * FX_ONE <= s_fx_mul(a, b) <= 256 * FX_ONE,
{
    lemma_fx_mul_bound(a, b, 16 * FX_ONE as int, 16);
    assert(16 * (FX_ONE as int) * 16 == 256 * (FX_ONE as int)) by (nonlinear_arith);
}

} // verus!
