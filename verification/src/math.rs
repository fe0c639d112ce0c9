//! Two-dimensional fixed-point vectors and the integer square root used to
//! normalize them.

use vstd::prelude::*;

verus! {

/// A position, velocity or size in the simulation plane, in fixed-point
/// world units.
#[derive(Clone, Copy, Debug, PartialEq, Eq, Structural)]
pub struct Vec2 {
    pub x: i64,
    pub y: i64,
}

/// The mathematical image of a [`Vec2`]: the same point with unbounded
/// integer coordinates.
pub ghost struct V2 {
    pub x: int,
    pub y: int,
}

impl View for Vec2 {
    type V = V2;

    open spec fn view(&self) -> V2 {
        V2 { x: self.x as int, y: self.y as int }
    }
}

impl Vec2 {
    /// Both coordinates lie within `limit`.
    pub open spec fn bounded(self, limit: int) -> bool {
        -limit <= self.x <= limit && -limit <= self.y <= limit
    }

    pub fn new(x: i64, y: i64) -> (v: Vec2)
        ensures
            v.x == x,
            v.y == y,
    {
        Vec2 { x, y }
    }

    /// Runtime test of [`Vec2::bounded`].
    pub fn within(&self, limit: i64) -> (b: bool)
        requires
            0 <= limit,
        ensures
            b == self.bounded(limit as int),
    {
        -limit <= self.x && self.x <= limit && -limit <= self.y && self.y <= limit
    }
}

/// Floor of the square root, defined by counting up: the unique `r` with
/// `r * r <= n < (r + 1) * (r + 1)`.
pub open spec fn sqrt_floor(n: nat) -> nat
    decreases n,
{
    if n == 0 {
        0
    } else {
        let r = sqrt_floor((n - 1) as nat);
        if (r + 1) * (r + 1) <= n {
            r + 1
        } else {
            r
        }
    }
}

pub proof fn lemma_sqrt_floor_bounds(n: nat)
    ensures
        sqrt_floor(n) * sqrt_floor(n) <= n,
        n < (sqrt_floor(n) + 1) * (sqrt_floor(n) + 1),
    decreases n,
{
    if n == 0 {
        assert(sqrt_floor(n) == 0);
        assert(0 < (0 + 1) * (0 + 1)) by (nonlinear_arith);
    } else {
        lemma_sqrt_floor_bounds((n - 1) as nat);
        let r = sqrt_floor((n - 1) as nat);
        assert(r * r <= n - 1);
        assert(n - 1 < (r + 1) * (r + 1));
        if (r + 1) * (r + 1) <= n {
            assert(sqrt_floor(n) == r + 1);
            assert((r + 1) * (r + 1) < (r + 2) * (r + 2)) by (nonlinear_arith);
        } else {
            assert(sqrt_floor(n) == r);
        }
    }
}

/// Any `r` squeezed the same way as `sqrt_floor(n)` is `sqrt_floor(n)`.
pub proof fn lemma_sqrt_floor_unique(n: nat, r: nat)
    requires
        r * r <= n,
        n < (r + 1) * (r + 1),
    ensures
        r == sqrt_floor(n),
{
    let s = sqrt_floor(n);
    lemma_sqrt_floor_bounds(n);
    if r < s {
        assert((r + 1) * (r + 1) <= s * s) by (nonlinear_arith)
            requires r + 1 <= s
        ;
    } else if s < r {
        assert((s + 1) * (s + 1) <= r * r) by (nonlinear_arith)
            requires s + 1 <= r
        ;
    }
}

pub proof fn lemma_sqrt_floor_square(a: nat)
    ensures
        sqrt_floor(a * a) == a,
{
    assert(a * a < (a + 1) * (a + 1)) by (nonlinear_arith);
    lemma_sqrt_floor_unique(a * a, a);
}

pub proof fn lemma_sqrt_floor_monotone(m: nat, n: nat)
    requires
        m <= n,
    ensures
        sqrt_floor(m) <= sqrt_floor(n),
{
    let rm = sqrt_floor(m);
    let rn = sqrt_floor(n);
    lemma_sqrt_floor_bounds(m);
    lemma_sqrt_floor_bounds(n);
    if rn < rm {
        assert((rn + 1) * (rn + 1) <= rm * rm) by (nonlinear_arith)
            requires rn + 1 <= rm
        ;
    }
}

/// Integer square root by binary search on the answer.
pub fn isqrt(n: u128) -> (r: u64)
    ensures
        r == sqrt_floor(n as nat),
{
    let mut lo: u128 = 0;
    let mut hi: u128 = 0x1_0000_0000_0000_0000;
    proof {
        assert((lo * lo) as nat <= n as nat);
        assert((n as nat) < (hi * hi) as nat) by (nonlinear_arith)
            requires hi == 0x1_0000_0000_0000_0000u128
        ;
    }
    while lo + 1 < hi
        invariant
            0 <= lo < hi <= 0x1_0000_0000_0000_0000,
            lo * lo <= n,
            n < hi * hi,
        decreases hi - lo,
    {
        let mid = lo + (hi - lo) / 2;
        assert(lo < mid < hi);
        assert(mid * mid < 0x1_0000_0000_0000_0000_0000_0000_0000_0000) by (nonlinear_arith)
            requires mid < 0x1_0000_0000_0000_0000u128
        ;
        if mid * mid <= n {
            lo = mid;
        } else {
            hi = mid;
        }
    }
    proof {
        assert(hi == lo + 1);
        lemma_sqrt_floor_unique(n as nat, lo as nat);
    }
    lo as u64
}

/// Scaling factor applied before normalizing a vector, so that short
/// direction vectors keep fractional precision.
pub const NORM_SCALE: i64 = 0x1_0000;

/// The length of `v` after both components are scaled by [`NORM_SCALE`],
/// rounded down.
pub open spec fn scaled_mag(v: V2) -> nat {
    let sx = v.x * NORM_SCALE;
    let sy = v.y * NORM_SCALE;
    sqrt_floor((sx * sx + sy * sy) as nat)
}

/// Integer division that rounds toward zero, as the machine division of
/// signed integers does.
pub open spec fn div_to_zero(a: int, b: int) -> int {
    if a >= 0 {
        a / b
    } else {
        -((-a) / b)
    }
}

/// `v` scaled to length `len`, rounding each component toward zero; the
/// zero vector stays zero rather than failing.
pub open spec fn scale_to_length_spec(v: V2, len: int) -> V2 {
    let n = scaled_mag(v) as int;
    if n == 0 {
        V2 { x: 0, y: 0 }
    } else {
        V2 {
            x: div_to_zero(v.x * NORM_SCALE * len, n),
            y: div_to_zero(v.y * NORM_SCALE * len, n),
        }
    }
}

/// No component of a vector scaled to length `len` exceeds `len` in
/// magnitude.
pub proof fn lemma_scale_to_length_bounds(v: V2, len: int)
    requires
        0 <= len,
    ensures
        -len <= scale_to_length_spec(v, len).x <= len,
        -len <= scale_to_length_spec(v, len).y <= len,
{
    let sx = v.x * NORM_SCALE;
    let sy = v.y * NORM_SCALE;
    let m = (sx * sx + sy * sy) as nat;
    let n = scaled_mag(v) as int;
    if n != 0 {
        let ax = vstd::math::abs(sx);
        let ay = vstd::math::abs(sy);
        assert(ax * ax == sx * sx && ay * ay == sy * sy && 0 <= sx * sx && 0 <= sy * sy)
            by (nonlinear_arith)
            requires ax == vstd::math::abs(sx) && ay == vstd::math::abs(sy)
        ;
        lemma_sqrt_floor_square(ax as nat);
        lemma_sqrt_floor_square(ay as nat);
        lemma_sqrt_floor_monotone((ax * ax) as nat, m);
        lemma_sqrt_floor_monotone((ay * ay) as nat, m);
        assert(ax <= n && ay <= n);
        assert(ax * len <= n * len && ay * len <= n * len) by (nonlinear_arith)
            requires ax <= n && ay <= n && 0 <= len
        ;
        assert(0 <= ax * len && 0 <= ay * len) by (nonlinear_arith)
            requires 0 <= ax && 0 <= ay && 0 <= len
        ;
        vstd::arithmetic::div_mod::lemma_div_is_ordered(ax * len, n * len, n);
        vstd::arithmetic::div_mod::lemma_div_is_ordered(ay * len, n * len, n);
        vstd::arithmetic::div_mod::lemma_div_multiples_vanish(len, n);
        vstd::arithmetic::div_mod::lemma_div_pos_is_pos(ax * len, n);
        vstd::arithmetic::div_mod::lemma_div_pos_is_pos(ay * len, n);
        if v.x >= 0 {
            assert(sx >= 0 && sx * len == ax * len) by (nonlinear_arith)
                requires sx == v.x * NORM_SCALE && v.x >= 0 && ax == vstd::math::abs(sx)
            ;
        } else {
            assert(sx <= 0 && -(sx * len) == ax * len) by (nonlinear_arith)
                requires sx == v.x * NORM_SCALE && v.x < 0 && 0 <= len && ax == vstd::math::abs(sx)
            ;
        }
        if v.y >= 0 {
            assert(sy >= 0 && sy * len == ay * len) by (nonlinear_arith)
                requires sy == v.y * NORM_SCALE && v.y >= 0 && ay == vstd::math::abs(sy)
            ;
        } else {
            assert(sy <= 0 && -(sy * len) == ay * len) by (nonlinear_arith)
                requires sy == v.y * NORM_SCALE && v.y < 0 && 0 <= len && ay == vstd::math::abs(sy)
            ;
        }
    }
}

/// Scale `v` to length `len` (the fixed-point analogue of normalizing and
/// multiplying). A zero vector yields zero velocity rather than an error,
/// and no component ever exceeds `len` in magnitude.
pub fn scale_to_length(v: Vec2, len: i64) -> (r: Vec2)
    requires
        v.bounded(2 * crate::COORD_LIMIT as int),
        0 <= len <= crate::COORD_LIMIT,
    ensures
        r@ == scale_to_length_spec(v@, len as int),
        -len <= r.x <= len,
        -len <= r.y <= len,
{
    let ghost l: int = 2 * crate::COORD_LIMIT as int * NORM_SCALE as int;
    let sx: i128 = v.x as i128 * NORM_SCALE as i128;
    let sy: i128 = v.y as i128 * NORM_SCALE as i128;
    proof {
        assert(-l <= sx <= l && -l <= sy <= l) by (nonlinear_arith)
            requires
                -2 * crate::COORD_LIMIT as int <= v.x as int <= 2 * crate::COORD_LIMIT as int,
                -2 * crate::COORD_LIMIT as int <= v.y as int <= 2 * crate::COORD_LIMIT as int,
                sx == v.x as int * NORM_SCALE as int,
                sy == v.y as int * NORM_SCALE as int,
                l == 2 * crate::COORD_LIMIT as int * NORM_SCALE as int,
        ;
    }
    let ax: u128 = if sx < 0 { (-sx) as u128 } else { sx as u128 };
    let ay: u128 = if sy < 0 { (-sy) as u128 } else { sy as u128 };
    proof {
        assert(ax * ax == sx * sx && ax * ax <= 0x4_0000_0000_0000_0000_0000_0000_0000) by (nonlinear_arith)
            requires
                ax == vstd::math::abs(sx as int),
                -0x200_0000_0000_0000 <= sx <= 0x200_0000_0000_0000,
        ;
        assert(ay * ay == sy * sy && ay * ay <= 0x4_0000_0000_0000_0000_0000_0000_0000) by (nonlinear_arith)
            requires
                ay == vstd::math::abs(sy as int),
                -0x200_0000_0000_0000 <= sy <= 0x200_0000_0000_0000,
        ;
    }
    let mag_sq: u128 = ax * ax + ay * ay;
    let n: u64 = isqrt(mag_sq);
    proof {
        assert(n == scaled_mag(v@));
    }
    if n == 0 {
        proof {
            lemma_sqrt_floor_bounds(mag_sq as nat);
        }
        return Vec2 { x: 0, y: 0 };
    }
    proof {
        lemma_sqrt_floor_square(ax as nat);
        lemma_sqrt_floor_square(ay as nat);
        lemma_sqrt_floor_monotone((ax * ax) as nat, mag_sq as nat);
        lemma_sqrt_floor_monotone((ay * ay) as nat, mag_sq as nat);
        assert(ax <= n && ay <= n);
        assert(ax * len <= n * len && ay * len <= n * len) by (nonlinear_arith)
            requires ax <= n && ay <= n && 0 <= len
        ;
        vstd::arithmetic::div_mod::lemma_div_is_ordered(
            ax as int * len as int,
            n as int * len as int,
            n as int,
        );
        vstd::arithmetic::div_mod::lemma_div_is_ordered(
            ay as int * len as int,
            n as int * len as int,
            n as int,
        );
        vstd::arithmetic::div_mod::lemma_div_multiples_vanish(len as int, n as int);
        vstd::arithmetic::div_mod::lemma_div_pos_is_pos(ax as int * len as int, n as int);
        vstd::arithmetic::div_mod::lemma_div_pos_is_pos(ay as int * len as int, n as int);
    }
    proof {
        assert(ax * len <= 0x2_0000_0000_0000_0000_0000_0000 && ay * len
            <= 0x2_0000_0000_0000_0000_0000_0000) by (nonlinear_arith)
            requires
                0 <= ax <= 0x200_0000_0000_0000,
                0 <= ay <= 0x200_0000_0000_0000,
                0 <= len <= 0x100_0000_0000,
        ;
    }
    let qx: u128 = ax * (len as u128) / (n as u128);
    let qy: u128 = ay * (len as u128) / (n as u128);
    let rx: i64 = if v.x < 0 { -(qx as i64) } else { qx as i64 };
    let ry: i64 = if v.y < 0 { -(qy as i64) } else { qy as i64 };
    proof {
        assert(sx * len as int == (v@.x * NORM_SCALE as int) * len as int);
        if v.x < 0 {
            assert(sx < 0 || sx == 0) by (nonlinear_arith)
                requires sx == v.x as int * NORM_SCALE as int && v.x < 0 && NORM_SCALE > 0
            ;
            assert(-(sx * len as int) == ax as int * len as int) by (nonlinear_arith)
                requires ax as int == -sx
            ;
        } else {
            assert(sx >= 0) by (nonlinear_arith)
                requires sx == v.x as int * NORM_SCALE as int && v.x >= 0 && NORM_SCALE > 0
            ;
            assert(sx * len as int == ax as int * len as int) by (nonlinear_arith)
                requires ax as int == sx
            ;
        }
        if v.y < 0 {
            assert(-(sy * len as int) == ay as int * len as int) by (nonlinear_arith)
                requires ay as int == -sy
            ;
        } else {
            assert(sy * len as int == ay as int * len as int) by (nonlinear_arith)
                requires ay as int == sy
            ;
        }
    }
    Vec2 { x: rx, y: ry }
}

} // verus!
