//! Fixed-point plane geometry: the coordinate pair used for positions and
//! velocities, truncating division, and interval clamping.

use vstd::prelude::*;

verus! {

/// Subunits per game unit. Positions, velocities and elapsed times are
/// all expressed in subunits so that fractional motion is exact integer
/// arithmetic.
pub const UNIT: i64 = 65536;

/// A point or vector in game space, in subunits.
#[derive(Clone, Copy, PartialEq, Eq, Structural, Debug)]
pub struct Vec2 {
    pub x: i64,
    pub y: i64,
}

/// Division that truncates toward zero, as the hardware division of the
/// machine does; `/` on `int` rounds toward negative infinity instead.
pub open spec fn tdiv(a: int, b: int) -> int {
    if a >= 0 {
        a / b
    } else {
        -((-a) / b)
    }
}

/// Truncating division on machine integers.
pub fn div_trunc(a: i64, b: i64) -> (r: i64)
    requires
        b > 0,
        a > i64::MIN,
    ensures
        r == tdiv(a as int, b as int),
{
    if a >= 0 {
        let q: u64 = (a as u64) / (b as u64);
        proof {
            assert((a as u64) as int / (b as u64) as int <= a as int) by (nonlinear_arith)
                requires a >= 0, b >= 1;
        }
        q as i64
    } else {
        let m: u64 = (-a) as u64;
        proof {
            assert(m as int / (b as u64) as int <= m as int) by (nonlinear_arith)
                requires m as int >= 0, b >= 1;
        }
        let q: u64 = m / (b as u64);
        -(q as i64)
    }
}

/// Truncating division keeps the sign of the dividend and never grows
/// its magnitude past `m` when the dividend is at most `m * b` in
/// magnitude.
pub proof fn lemma_tdiv_bound(a: int, b: int, m: int)
    requires
        b > 0,
        0 <= m,
        -(m * b) <= a <= m * b,
    ensures
        -m <= tdiv(a, b) <= m,
{
    if a >= 0 {
        vstd::arithmetic::div_mod::lemma_div_is_ordered(a, m * b, b);
        vstd::arithmetic::div_mod::lemma_div_multiples_vanish(m, b);
        assert(m * b == b * m) by (nonlinear_arith);
        vstd::arithmetic::div_mod::lemma_div_pos_is_pos(a, b);
    } else {
        vstd::arithmetic::div_mod::lemma_div_is_ordered(-a, m * b, b);
        vstd::arithmetic::div_mod::lemma_div_multiples_vanish(m, b);
        assert(m * b == b * m) by (nonlinear_arith);
        vstd::arithmetic::div_mod::lemma_div_pos_is_pos(-a, b);
    }
}

/// Truncating division keeps the sign of the dividend.
pub proof fn lemma_tdiv_sign(a: int, b: int)
    requires
        b > 0,
    ensures
        a >= 0 ==> tdiv(a, b) >= 0,
        a <= 0 ==> tdiv(a, b) <= 0,
        a == 0 ==> tdiv(a, b) == 0,
{
    if a >= 0 {
        vstd::arithmetic::div_mod::lemma_div_pos_is_pos(a, b);
    }
    if a <= 0 {
        vstd::arithmetic::div_mod::lemma_div_pos_is_pos(-a, b);
    }
    if a == 0 {
        vstd::arithmetic::div_mod::lemma_div_of0(b);
    }
}

/// What clamping yields: the nearer bound when `v` lies outside
/// `[lo, hi]`, otherwise `v` itself. The upper bound is applied first,
/// so for an empty interval (`lo > hi`) the result is `lo`.
pub open spec fn spec_clamp(v: int, lo: int, hi: int) -> int {
    let capped = if v > hi { hi } else { v };
    if capped < lo { lo } else { capped }
}

/// Clamp `v` into `[lo, hi]`, applying the upper bound first.
pub fn clamp_i64(v: i64, lo: i64, hi: i64) -> (r: i64)
    ensures
        r == spec_clamp(v as int, lo as int, hi as int),
{
    let capped: i64 = if v > hi { hi } else { v };
    if capped < lo { lo } else { capped }
}

} // verus!
