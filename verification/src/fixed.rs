//! Fixed-point scalar arithmetic.
//!
//! Every scalar of the camera core is an `i64` counting units of
//! `1 / FX_ONE`. Products and quotients are computed in 128-bit integers and
//! scaled back with truncating (round-toward-zero) division, so every
//! operation is exact integer arithmetic with a closed-form specification.

use vstd::prelude::*;

verus! {

/// The fixed-point scale: one whole unit.
pub const FX_ONE: i64 = 65536;

/// Magnitude bound accepted by the scalar operations (2^39).
/// All camera state stays far below this, so products fit in 128 bits and
/// scaled results fit in an `i64`.
pub const FX_ABS_LIM: i64 = 549755813888;

/// Truncating division: rounds toward zero, as the executable code divides
/// magnitudes and reapplies the sign.
pub open spec fn s_tdiv(p: int, d: int) -> int
    recommends
        d >= 1,
{
    if p >= 0 {
        p / d
    } else {
        -((-p) / d)
    }
}

/// The fixed-point product: scale the integer product back down.
pub open spec fn s_fx_mul(a: int, b: int) -> int {
    s_tdiv(a * b, FX_ONE as int)
}

/// The fixed-point quotient: scale the dividend up first.
pub open spec fn s_fx_div(a: int, d: int) -> int
    recommends
        d >= 1,
{
    s_tdiv(a * FX_ONE, d)
}

pub open spec fn s_clamp(x: int, lo: int, hi: int) -> int
    recommends
        lo <= hi,
{
    if x < lo {
        lo
    } else if x > hi {
        hi
    } else {
        x
    }
}

/// `r` is the integer square root of `n`.
pub open spec fn is_isqrt(n: int, r: int) -> bool {
    &&& 0 <= r
    &&& r * r <= n
    &&& n < (r + 1) * (r + 1)
}

/// The integer square root, as the unique root the executable search finds.
pub open spec fn spec_isqrt(n: int) -> int {
    choose|r: int| is_isqrt(n, r)
}

/// Every nonnegative integer has an integer square root.
pub proof fn lemma_isqrt_exists(n: int)
    requires
        n >= 0,
    ensures
        is_isqrt(n, spec_isqrt(n)),
    decreases n,
{
    if n == 0 {
        assert(is_isqrt(0, 0)) by (nonlinear_arith);
    } else {
        lemma_isqrt_exists(n - 1);
        let r = spec_isqrt(n - 1);
        if (r + 1) * (r + 1) <= n {
            assert(is_isqrt(n, r + 1)) by (nonlinear_arith)
                requires
                    is_isqrt(n - 1, r),
                    (r + 1) * (r + 1) <= n,
            ;
        } else {
            assert(is_isqrt(n, r));
        }
    }
    assert(exists|r: int| is_isqrt(n, r));
}

/// The root is unique, so any witness equals `spec_isqrt`.
pub proof fn lemma_isqrt_unique(n: int, r: int)
    requires
        is_isqrt(n, r),
    ensures
        r == spec_isqrt(n),
{
    assert(n >= 0) by (nonlinear_arith)
        requires
            is_isqrt(n, r),
    ;
    lemma_isqrt_exists(n);
    let r2 = spec_isqrt(n);
    assert(r == r2) by (nonlinear_arith)
        requires
            is_isqrt(n, r),
            is_isqrt(n, r2),
    ;
}

/// The integer square root is monotone.
pub proof fn lemma_isqrt_mono(a: int, b: int)
    requires
        0 <= a <= b,
    ensures
        spec_isqrt(a) <= spec_isqrt(b),
{
    lemma_isqrt_exists(a);
    lemma_isqrt_exists(b);
    assert(spec_isqrt(a) <= spec_isqrt(b)) by (nonlinear_arith)
        requires
            is_isqrt(a, spec_isqrt(a)),
            is_isqrt(b, spec_isqrt(b)),
            a <= b,
    ;
}

/// A truncated quotient of a bounded dividend is bounded.
pub proof fn lemma_tdiv_abs_le(p: int, d: int, c: int)
    requires
        d >= 1,
        c >= 0,
        -(c * d) <= p <= c * d,
    ensures
        -c <= s_tdiv(p, d) <= c,
{
    if p >= 0 {
        assert(p / d <= c) by (nonlinear_arith)
            requires
                d >= 1,
                c >= 0,
                p <= c * d,
                p >= 0,
        ;
        assert(p / d >= 0) by (nonlinear_arith)
            requires
                d >= 1,
                p >= 0,
        ;
    } else {
        assert((-p) / d <= c) by (nonlinear_arith)
            requires
                d >= 1,
                c >= 0,
                -p <= c * d,
                -p >= 0,
        ;
        assert((-p) / d >= 0) by (nonlinear_arith)
            requires
                d >= 1,
                -p >= 0,
        ;
    }
}

/// A truncated quotient keeps the sign of its dividend.
pub proof fn lemma_tdiv_sign(p: int, d: int)
    requires
        d >= 1,
    ensures
        p >= 0 ==> s_tdiv(p, d) >= 0,
        p <= 0 ==> s_tdiv(p, d) <= 0,
{
    if p >= 0 {
        assert(p / d >= 0) by (nonlinear_arith)
            requires
                p >= 0,
                d >= 1,
        ;
    } else {
        assert((-p) / d >= 0) by (nonlinear_arith)
            requires
                -p >= 0,
                d >= 1,
        ;
    }
}

/// A perfect square has its base as integer square root.
pub proof fn lemma_isqrt_square(c: int)
    requires
        c >= 0,
    ensures
        spec_isqrt(c * c) == c,
{
    assert(is_isqrt(c * c, c)) by (nonlinear_arith)
        requires
            c >= 0,
    ;
    lemma_isqrt_unique(c * c, c);
}

/// A component divided by the root of a sum of squares it appears in stays
/// within one unit.
pub proof fn lemma_fx_div_unit(a: int, n2: int, n: int)
    requires
        n2 >= a * a,
        n2 >= 0,
        is_isqrt(n2, n),
        n >= 1,
    ensures
        -(FX_ONE as int) <= s_fx_div(a, n) <= FX_ONE as int,
{
    let aa = if a >= 0 {
        a
    } else {
        -a
    };
    assert(aa * aa == a * a) by (nonlinear_arith)
        requires
            aa == a || aa == -a,
    ;
    assert(aa >= 0);
    lemma_isqrt_unique(n2, n);
    lemma_isqrt_square(aa);
    lemma_isqrt_mono(aa * aa, n2);
    assert(aa <= n);
    assert(-((FX_ONE as int) * n) <= a * FX_ONE <= (FX_ONE as int) * n) by (nonlinear_arith)
        requires
            -n <= a <= n,
    ;
    lemma_tdiv_abs_le(a * FX_ONE, n, FX_ONE as int);
}

/// A fixed-point product of bounded factors is bounded:
/// `|a| <= ca` and `|b| <= cb * FX_ONE` give `|a * b / FX_ONE| <= ca * cb`.
pub proof fn lemma_fx_mul_bound(a: int, b: int, ca: int, cb: int)
    requires
        0 <= ca,
        0 <= cb,
        -ca <= a <= ca,
        -(cb * FX_ONE) <= b <= cb * FX_ONE,
    ensures
        -(ca * cb) <= s_fx_mul(a, b) <= ca * cb,
{
    assert(-((ca * cb) * FX_ONE) <= a * b <= (ca * cb) * FX_ONE) by (nonlinear_arith)
        requires
            0 <= ca,
            0 <= cb,
            -ca <= a <= ca,
            -(cb * FX_ONE) <= b <= cb * FX_ONE,
    ;
    lemma_tdiv_abs_le(a * b, FX_ONE as int, ca * cb);
}

/// Scaling by a whole unit is exact: `a * FX_ONE / FX_ONE == a`.
pub proof fn lemma_fx_mul_one(a: int)
    ensures
        s_fx_mul(a, FX_ONE as int) == a,
        s_fx_mul(FX_ONE as int, a) == a,
        s_fx_mul(a, 0) == 0,
        s_fx_mul(0, a) == 0,
{
    assert(s_tdiv(a * FX_ONE, FX_ONE as int) == a) by (nonlinear_arith);
    assert(a * FX_ONE == FX_ONE * a) by (nonlinear_arith);
    assert(a * 0 == 0) by (nonlinear_arith);
    assert(0 * a == 0) by (nonlinear_arith);
    assert(s_tdiv(0, FX_ONE as int) == 0);
}

/// The magnitude of a scalar known to exceed `i64::MIN`.
fn abs_fx(a: i64) -> (r: u64)
    requires
        a > i64::MIN,
    ensures
        r == if a >= 0 {
            a as int
        } else {
            -a as int
        },
{
    if a >= 0 {
        a as u64
    } else {
        (-a) as u64
    }
}

/// Fixed-point multiplication, exact per `s_fx_mul`.
pub fn fx_mul(a: i64, b: i64) -> (r: i64)
    requires
        -FX_ABS_LIM <= a <= FX_ABS_LIM,
        -FX_ABS_LIM <= b <= FX_ABS_LIM,
    ensures
        r as int == s_fx_mul(a as int, b as int),
{
    let neg: bool = (a < 0) != (b < 0);
    let ua: u128 = abs_fx(a) as u128;
    let ub: u128 = abs_fx(b) as u128;
    proof {
        assert((ua as int) * (ub as int) <= (FX_ABS_LIM as int) * (FX_ABS_LIM as int)
            < u128::MAX as int) by (nonlinear_arith)
            requires
                0 <= (ua as int) <= FX_ABS_LIM as int,
                0 <= (ub as int) <= FX_ABS_LIM as int,
        ;
    }
    let p: u128 = ua * ub;
    let q: u128 = p / (FX_ONE as u128);
    proof {
        assert((p as int) <= (FX_ABS_LIM as int) * (FX_ABS_LIM as int)) by (nonlinear_arith)
            requires
                p == (ua as int) * (ub as int),
                0 <= (ua as int) <= FX_ABS_LIM as int,
                0 <= (ub as int) <= FX_ABS_LIM as int,
        ;
        assert((q as int) <= 0x4000_0000_0000_0000int) by (nonlinear_arith)
            requires
                (q as int) == (p as int) / (FX_ONE as int),
                0 <= (p as int) <= (FX_ABS_LIM as int) * (FX_ABS_LIM as int),
        ;
        if neg {
            assert((a as int) * (b as int) == -((ua as int) * (ub as int))) by (nonlinear_arith)
                requires
                    (a < 0) != (b < 0),
                    (ua as int) == if a >= 0 {
                        a as int
                    } else {
                        -(a as int)
                    },
                    (ub as int) == if b >= 0 {
                        b as int
                    } else {
                        -(b as int)
                    },
            ;
        } else {
            assert((a as int) * (b as int) == (ua as int) * (ub as int)) by (nonlinear_arith)
                requires
                    !((a < 0) != (b < 0)),
                    (ua as int) == if a >= 0 {
                        a as int
                    } else {
                        -(a as int)
                    },
                    (ub as int) == if b >= 0 {
                        b as int
                    } else {
                        -(b as int)
                    },
            ;
        }
    }
    if neg {
        proof {
            if p == 0 {
                assert(s_tdiv((a as int) * (b as int), FX_ONE as int) == 0);
            }
        }
        -(q as i64)
    } else {
        q as i64
    }
}

/// Fixed-point division by a positive divisor, exact per `s_fx_div`.
pub fn fx_div(a: i64, d: i64) -> (r: i64)
    requires
        1 <= d,
        -FX_ABS_LIM <= a <= FX_ABS_LIM,
    ensures
        r as int == s_fx_div(a as int, d as int),
{
    let neg: bool = a < 0;
    let ua: u128 = abs_fx(a) as u128;
    let scaled: u128 = ua * (FX_ONE as u128);
    let q: u128 = scaled / (d as u128);
    proof {
        assert((scaled as int) <= (FX_ABS_LIM as int) * (FX_ONE as int)) by (nonlinear_arith)
            requires
                scaled == (ua as int) * (FX_ONE as int),
                0 <= (ua as int) <= FX_ABS_LIM as int,
        ;
        assert((q as int) <= (scaled as int)) by (nonlinear_arith)
            requires
                (q as int) == (scaled as int) / (d as int),
                d >= 1,
                (scaled as int) >= 0,
        ;
        if neg {
            assert((a as int) * (FX_ONE as int) == -(scaled as int)) by (nonlinear_arith)
                requires
                    a < 0,
                    (ua as int) == -(a as int),
                    scaled == (ua as int) * (FX_ONE as int),
            ;
        } else {
            assert((a as int) * (FX_ONE as int) == (scaled as int)) by (nonlinear_arith)
                requires
                    a >= 0,
                    (ua as int) == a as int,
                    scaled == (ua as int) * (FX_ONE as int),
            ;
        }
    }
    if neg {
        proof {
            if scaled == 0 {
                assert(s_tdiv((a as int) * (FX_ONE as int), d as int) == 0);
            }
        }
        -(q as i64)
    } else {
        q as i64
    }
}

/// Clamp a scalar into a closed interval.
pub fn fx_clamp(x: i64, lo: i64, hi: i64) -> (r: i64)
    requires
        lo <= hi,
    ensures
        r as int == s_clamp(x as int, lo as int, hi as int),
        lo <= r <= hi,
{
    if x < lo {
        lo
    } else if x > hi {
        hi
    } else {
        x
    }
}

/// The integer square root of a 64-bit value, by bisection.
pub fn isqrt(n: u64) -> (r: u64)
    ensures
        is_isqrt(n as int, r as int),
        r as int == spec_isqrt(n as int),
        r <= 0x1_0000_0000u64,
{
    let mut lo: u64 = 0;
    let mut hi: u64 = 0x1_0000_0000;
    proof {
        assert((0x1_0000_0000u64 as int) * (0x1_0000_0000u64 as int) > u64::MAX as int) by (
        nonlinear_arith);
    }
    while lo + 1 < hi
        invariant
            0 <= lo < hi <= 0x1_0000_0000u64,
            (lo as int) * (lo as int) <= n as int,
            (n as int) < (hi as int) * (hi as int),
        decreases hi - lo,
    {
        let mid: u64 = lo + (hi - lo) / 2;
        proof {
            assert((mid as int) * (mid as int) <= 0x1_0000_0000int * 0x1_0000_0000int
                < u128::MAX as int) by (nonlinear_arith)
                requires
                    0 <= (mid as int) <= 0x1_0000_0000int,
            ;
        }
        if (mid as u128) * (mid as u128) <= n as u128 {
            lo = mid;
        } else {
            hi = mid;
        }
    }
    proof {
        assert(hi == lo + 1);
        lemma_isqrt_unique(n as int, lo as int);
    }
    lo
}

} // verus!
