//! Fixed-point scalars and small vectors.
//!
//! All world, screen and color quantities in this crate are signed
//! fixed-point numbers carrying three fractional decimal digits: the value
//! `1.5` is stored as `1500`. Angles are stored in millidegrees.

use vstd::prelude::*;

verus! {

/// Fixed-point subunits per whole unit.
pub const FX_ONE: i64 = 1000;

/// Truncated division (rounds toward zero), as `/` does on hardware.
pub open spec fn spec_div_trunc(a: int, b: int) -> int {
    if a >= 0 {
        a / b
    } else {
        -((-a) / b)
    }
}

/// Divide a fixed-point value by a positive divisor, rounding toward zero.
pub fn div_trunc(a: i64, b: i64) -> (r: i64)
    requires
        b > 0,
        a > i64::MIN,
    ensures
        r == spec_div_trunc(a as int, b as int),
{
    if a >= 0 {
        ((a as u64) / (b as u64)) as i64
    } else {
        -((((-a) as u64) / (b as u64)) as i64)
    }
}

/// Truncated division keeps magnitudes: if `|a| <= m * b` then
/// `|a / b| <= m`.
pub proof fn lemma_div_trunc_bound(a: int, b: int, m: int)
    requires
        b > 0,
        m >= 0,
        -(m * b) <= a <= m * b,
    ensures
        -m <= spec_div_trunc(a, b) <= m,
{
    if a >= 0 {
        assert(0 <= a / b <= m) by (nonlinear_arith)
            requires
                b > 0,
                m >= 0,
                0 <= a <= m * b,
        ;
    } else {
        assert(0 <= (-a) / b <= m) by (nonlinear_arith)
            requires
                b > 0,
                m >= 0,
                0 <= -a <= m * b,
        ;
    }
}

/// A two-component fixed-point vector (screen positions and sizes).
#[derive(Clone, Copy, PartialEq, Eq, Structural, Debug)]
pub struct Vec2Fx {
    pub x: i64,
    pub y: i64,
}

impl Vec2Fx {
    pub fn new(x: i64, y: i64) -> (r: Self)
        ensures
            r == (Vec2Fx { x, y }),
    {
        Vec2Fx { x, y }
    }
}

/// A three-component fixed-point vector (world positions and scales).
#[derive(Clone, Copy, PartialEq, Eq, Structural, Debug)]
pub struct Vec3Fx {
    pub x: i64,
    pub y: i64,
    pub z: i64,
}

impl Vec3Fx {
    pub fn new(x: i64, y: i64, z: i64) -> (r: Self)
        ensures
            r == (Vec3Fx { x, y, z }),
    {
        Vec3Fx { x, y, z }
    }
}

/// A four-component fixed-point vector (RGBA colors).
#[derive(Clone, Copy, PartialEq, Eq, Structural, Debug)]
pub struct Vec4Fx {
    pub x: i64,
    pub y: i64,
    pub z: i64,
    pub w: i64,
}

impl Vec4Fx {
    pub fn new(x: i64, y: i64, z: i64, w: i64) -> (r: Self)
        ensures
            r == (Vec4Fx { x, y, z, w }),
    {
        Vec4Fx { x, y, z, w }
    }
}

/// The integer square root: the greatest `r` with `r * r <= n`.
pub open spec fn spec_isqrt(n: nat) -> nat {
    choose|r: nat| #[trigger] (r * r) <= n && n < (r + 1) * (r + 1)
}

/// Two integer square roots of the same number are the same number.
pub proof fn lemma_isqrt_unique(n: nat, a: nat, b: nat)
    requires
        a * a <= n < (a + 1) * (a + 1),
        b * b <= n < (b + 1) * (b + 1),
    ensures
        a == b,
{
    assert(a == b) by (nonlinear_arith)
        requires
            a * a <= n < (a + 1) * (a + 1),
            b * b <= n < (b + 1) * (b + 1),
    ;
}

/// Integer square root: the greatest `r` with `r * r <= n`.
pub fn isqrt_u64(n: u64) -> (r: u64)
    ensures
        (r as nat) * (r as nat) <= n as nat,
        (n as nat) < ((r as nat) + 1) * ((r as nat) + 1),
        r as nat == spec_isqrt(n as nat),
{
    let mut lo: u64 = 0;
    let mut hi: u64 = if n < 0x1_0000_0000u64 {
        n + 1
    } else {
        0x1_0000_0000u64
    };
    proof {
        if n < 0x1_0000_0000u64 {
            assert((n as nat) < ((n as nat) + 1) * ((n as nat) + 1)) by (nonlinear_arith);
        }
    }
    while lo + 1 < hi
        invariant
            lo < hi,
            hi <= 0x1_0000_0000u64,
            (lo as nat) * (lo as nat) <= n as nat,
            (n as nat) < (hi as nat) * (hi as nat),
        decreases hi - lo,
    {
        let mid = lo + (hi - lo) / 2;
        proof {
            assert((mid as nat) * (mid as nat) <= 0x1_0000_0000nat * 0x1_0000_0000nat)
                by (nonlinear_arith)
                requires
                    mid as nat <= 0x1_0000_0000nat,
            ;
        }
        let sq: u128 = (mid as u128) * (mid as u128);
        if sq <= n as u128 {
            lo = mid;
        } else {
            hi = mid;
        }
    }
    proof {
        let w = choose|r: nat| #[trigger] (r * r) <= n as nat && (n as nat) < (r + 1) * (r + 1);
        lemma_isqrt_unique(n as nat, lo as nat, w);
    }
    lo
}

} // verus!
