//! Visual and lifetime components carried by entities.

use vstd::prelude::*;
use crate::math::div_to_zero;
use crate::COORD_LIMIT;

verus! {

/// Scale of a colour channel and of an alpha fraction: this value stands
/// for 1.0.
pub const COLOR_FULL: i64 = 1000;

/// A colour with fixed-point channels; [`COLOR_FULL`] is full intensity.
#[derive(Clone, Copy, Debug, PartialEq, Eq, Structural)]
pub struct Color {
    pub red: i64,
    pub green: i64,
    pub blue: i64,
    pub alpha: i64,
}

impl Color {
    pub fn rgb(red: i64, green: i64, blue: i64) -> (c: Color)
        ensures
            c == (Color { red, green, blue, alpha: COLOR_FULL }),
    {
        Color { red, green, blue, alpha: COLOR_FULL }
    }
}

/// The drawn shape of a circular arena entity: a visual radius, a colour
/// and the number of vertices used to draw the arc.
#[derive(Clone, Copy, Debug, PartialEq, Eq, Structural)]
pub struct CShape {
    pub radius: i64,
    pub color: Color,
    pub vertices: u32,
}

/// The per-frame player intent handed in by the input collaborator:
/// movement axes and an optional fire request aimed at a world-space
/// point.
#[derive(Clone, Copy, Debug, PartialEq, Eq, Structural)]
pub struct PlayerIntent {
    pub move_up: bool,
    pub move_down: bool,
    pub move_left: bool,
    pub move_right: bool,
    pub fire_at: Option<crate::math::Vec2>,
}

impl PlayerIntent {
    /// The unnormalized movement direction: each axis is -1, 0 or 1, and
    /// an axis with both keys held resolves to down or to right, the key
    /// polled last.
    pub open spec fn dir_spec(self) -> crate::math::V2 {
        let x: int = if self.move_right { 1 } else if self.move_left { -1 } else { 0 };
        let y: int = if self.move_down { -1 } else if self.move_up { 1 } else { 0 };
        crate::math::V2 { x, y }
    }

    /// No movement keys held and no fire request.
    pub fn idle() -> (intent: PlayerIntent)
        ensures
            intent.dir_spec() == (crate::math::V2 { x: 0, y: 0 }),
            intent.fire_at is None,
    {
        PlayerIntent {
            move_up: false,
            move_down: false,
            move_left: false,
            move_right: false,
            fire_at: None,
        }
    }

    /// The movement direction as a unit-grid vector.
    pub fn dir(&self) -> (d: crate::math::Vec2)
        ensures
            d@ == self.dir_spec(),
    {
        let x: i64 = if self.move_right { 1 } else if self.move_left { -1 } else { 0 };
        let y: i64 = if self.move_down { -1 } else if self.move_up { 1 } else { 0 };
        crate::math::Vec2 { x, y }
    }
}

/// A remaining-time budget. `total` is fixed at creation and `remaining`
/// only ever decreases; the entity is eligible for destruction once
/// `remaining` is negative.
#[derive(Clone, Copy, Debug, PartialEq, Eq, Structural)]
pub struct CLifespan {
    pub remaining: i64,
    pub total: i64,
}

impl CLifespan {
    /// A fresh budget starts with all of its time remaining.
    pub fn new(total: i64) -> (ls: CLifespan)
        ensures
            ls.remaining == total,
            ls.total == total,
    {
        CLifespan { remaining: total, total }
    }

    /// `remaining` never exceeds `total`, and neither strays past the
    /// simulation limits; `remaining` can sit at most one frame below
    /// zero, because such an entity is destroyed at the end of the frame.
    pub open spec fn wf(self) -> bool {
        0 < self.total <= COORD_LIMIT && self.remaining <= self.total && -2 * COORD_LIMIT as int
            <= self.remaining
    }

    /// Age the budget by one frame: `remaining` drops by exactly `dt`, and
    /// the result says whether the entity is now due for destruction.
    pub fn age(&mut self, dt: i64) -> (expired: bool)
        requires
            0 <= dt <= COORD_LIMIT,
            old(self).wf(),
            0 <= old(self).remaining,
        ensures
            final(self).remaining == old(self).remaining - dt,
            final(self).total == old(self).total,
            expired == (final(self).remaining < 0),
            final(self).wf(),
    {
        self.remaining = self.remaining - dt;
        self.remaining < 0
    }

    /// The visual fade fraction `remaining / total`, expressed against
    /// `scale` (so `scale` means fully opaque). The value is not clamped:
    /// it can be slightly negative on the frame before destruction takes
    /// effect, exactly as the remaining budget can.
    pub fn alpha_scaled(&self, scale: i64) -> (a: i64)
        requires
            self.wf(),
            -self.total <= self.remaining,
            0 <= scale <= COORD_LIMIT,
        ensures
            a == div_to_zero(self.remaining * scale, self.total as int),
            -scale <= a <= scale,
    {
        proof {
            assert(-0x2_0000_0000_0000_0000_0000 <= self.remaining as int * scale as int
                <= 0x2_0000_0000_0000_0000_0000) by (nonlinear_arith)
                requires
                    -0x200_0000_0000 <= self.remaining as int <= 0x200_0000_0000,
                    0 <= scale as int <= 0x100_0000_0000,
            ;
        }
        let num: i128 = self.remaining as i128 * scale as i128;
        let mag: u128 = if num < 0 { (-num) as u128 } else { num as u128 };
        proof {
            assert(mag <= self.total as int * scale as int) by (nonlinear_arith)
                requires
                    mag == vstd::math::abs(self.remaining as int * scale as int),
                    num == self.remaining as int * scale as int,
                    -self.total <= self.remaining <= self.total,
                    0 < self.total,
                    0 <= scale,
            ;
            vstd::arithmetic::div_mod::lemma_div_is_ordered(
                mag as int,
                self.total as int * scale as int,
                self.total as int,
            );
            vstd::arithmetic::div_mod::lemma_div_multiples_vanish(scale as int, self.total as int);
            vstd::arithmetic::div_mod::lemma_div_pos_is_pos(mag as int, self.total as int);
        }
        let q: u128 = mag / (self.total as u128);
        if num < 0 {
            -(q as i64)
        } else {
            q as i64
        }
    }
}

/// Lifespan monotonicity law, second half: starting from a full budget
/// `total` and aged by `dt` each tick, the first tick on which the budget
/// is negative comes on or after tick `ceil(total / dt)`.
pub proof fn lemma_destruction_not_before_ceil(total: int, dt: int, k: int)
    requires
        0 < dt,
        0 <= total,
        0 <= k,
        total - k * dt < 0,
    ensures
        k >= (total + dt - 1) / dt,
{
    let c = (total + dt - 1) / dt;
    vstd::arithmetic::div_mod::lemma_fundamental_div_mod(total + dt - 1, dt);
    assert(total + dt - 1 == dt * c + (total + dt - 1) % dt);
    vstd::arithmetic::div_mod::lemma_mod_bound(total + dt - 1, dt);
    if k < c {
        assert(k * dt <= (c - 1) * dt) by (nonlinear_arith)
            requires
                k <= c - 1,
                0 < dt,
        ;
        assert((c - 1) * dt == dt * c - dt) by (nonlinear_arith);
        assert(false);
    }
}

} // verus!
