//! Position integration and arena-edge bouncing.
//!
//! Each step records the previous position, moves by one velocity step
//! (velocity per frame, not velocity times `dt`), handles the arena bounds
//! in one of two ways, and accumulates the orientation angle by `dt`.

use vstd::prelude::*;
use crate::math::{Vec2, V2};
use crate::{COORD_LIMIT, POS_LIMIT};

verus! {

/// Position, previous-frame position, velocity and orientation of a moving
/// entity.
#[derive(Clone, Copy, Debug, PartialEq, Eq, Structural)]
pub struct CTransform {
    pub pos: Vec2,
    pub prev_pos: Vec2,
    pub vel: Vec2,
    pub angle: i64,
}

/// The mathematical image of a [`CTransform`].
pub ghost struct TransformM {
    pub pos: V2,
    pub prev_pos: V2,
    pub vel: V2,
    pub angle: int,
}

impl View for CTransform {
    type V = TransformM;

    open spec fn view(&self) -> TransformM {
        TransformM { pos: self.pos@, prev_pos: self.prev_pos@, vel: self.vel@, angle: self.angle as int }
    }
}

impl CTransform {
    /// Positions and angle within [`POS_LIMIT`] and velocity within
    /// [`COORD_LIMIT`], so an integration step cannot overflow.
    pub open spec fn wf(self) -> bool {
        self.pos.bounded(POS_LIMIT as int) && self.prev_pos.bounded(POS_LIMIT as int)
            && self.vel.bounded(COORD_LIMIT as int) && -POS_LIMIT <= self.angle <= POS_LIMIT
    }

    /// A transform at rest: the previous position equals the position, the
    /// velocity is zero and the orientation is zero.
    pub fn new(pos: Vec2) -> (tf: CTransform)
        ensures
            tf.pos == pos,
            tf.prev_pos == pos,
            tf.vel == (Vec2 { x: 0, y: 0 }),
            tf.angle == 0,
    {
        CTransform { pos, prev_pos: pos, vel: Vec2 { x: 0, y: 0 }, angle: 0 }
    }

    /// A transform already in motion; the previous position still starts
    /// at the spawn position.
    pub fn new_moving(pos: Vec2, vel: Vec2, angle: i64) -> (tf: CTransform)
        ensures
            tf.pos == pos,
            tf.prev_pos == pos,
            tf.vel == vel,
            tf.angle == angle,
    {
        CTransform { pos, prev_pos: pos, vel, angle }
    }
}

/// The moved position sticks out past either edge of a `[0, bound]` axis,
/// allowing `radius` of extent on both sides.
pub open spec fn past_edge(pos: int, radius: int, bound: int) -> bool {
    pos + radius > bound || pos - radius < 0
}

/// One reflective integration step with a separate extent per axis:
/// move, then negate each velocity component whose axis is out of
/// bounds. The position is not clamped, so the entity sits outside the
/// arena on the flip frame.
pub open spec fn reflective_step_extents(
    tf: TransformM,
    extent_x: int,
    extent_y: int,
    width: int,
    height: int,
    dt: int,
) -> TransformM {
    let px = tf.pos.x + tf.vel.x;
    let py = tf.pos.y + tf.vel.y;
    let vx = if past_edge(px, extent_x, width) { -tf.vel.x } else { tf.vel.x };
    let vy = if past_edge(py, extent_y, height) { -tf.vel.y } else { tf.vel.y };
    TransformM {
        pos: V2 { x: px, y: py },
        prev_pos: tf.pos,
        vel: V2 { x: vx, y: vy },
        angle: tf.angle + dt,
    }
}

/// The reflective step of a circular entity: the same extent on both
/// axes.
pub open spec fn reflective_step(tf: TransformM, radius: int, width: int, height: int, dt: int) -> TransformM {
    reflective_step_extents(tf, radius, radius, width, height, dt)
}

/// One positional-correction integration step: move, then on each
/// out-of-bounds axis negate the velocity component and push the position
/// two velocity steps back toward the interior.
pub open spec fn corrective_step(tf: TransformM, radius: int, width: int, height: int, dt: int) -> TransformM {
    let mx = tf.pos.x + tf.vel.x;
    let my = tf.pos.y + tf.vel.y;
    let out_x = past_edge(mx, radius, width);
    let out_y = past_edge(my, radius, height);
    let vx = if out_x { -tf.vel.x } else { tf.vel.x };
    let vy = if out_y { -tf.vel.y } else { tf.vel.y };
    let px = if out_x { mx + 2 * vx } else { mx };
    let py = if out_y { my + 2 * vy } else { my };
    TransformM {
        pos: V2 { x: px, y: py },
        prev_pos: tf.pos,
        vel: V2 { x: vx, y: vy },
        angle: tf.angle + dt,
    }
}

/// Advance `tf` one frame with the reflective clamp-free bounce.
pub fn integrate_reflective(tf: &mut CTransform, radius: i64, width: i64, height: i64, dt: i64)
    requires
        old(tf).wf(),
        0 <= radius <= COORD_LIMIT,
        0 <= width <= COORD_LIMIT,
        0 <= height <= COORD_LIMIT,
        0 <= dt <= COORD_LIMIT,
    ensures
        final(tf)@ == reflective_step(old(tf)@, radius as int, width as int, height as int, dt as int),
{
    tf.prev_pos = tf.pos;
    tf.pos.x = tf.pos.x + tf.vel.x;
    tf.pos.y = tf.pos.y + tf.vel.y;
    if tf.pos.x + radius > width || tf.pos.x - radius < 0 {
        tf.vel.x = -tf.vel.x;
    }
    if tf.pos.y + radius > height || tf.pos.y - radius < 0 {
        tf.vel.y = -tf.vel.y;
    }
    tf.angle = tf.angle + dt;
}

/// Advance a box-shaped entity one frame with the reflective clamp-free
/// bounce, using half the box size as the extent on each axis.
pub fn integrate_reflective_box(tf: &mut CTransform, half_size: Vec2, width: i64, height: i64, dt: i64)
    requires
        old(tf).wf(),
        0 <= half_size.x <= COORD_LIMIT,
        0 <= half_size.y <= COORD_LIMIT,
        0 <= width <= COORD_LIMIT,
        0 <= height <= COORD_LIMIT,
        0 <= dt <= COORD_LIMIT,
    ensures
        final(tf)@ == reflective_step_extents(
            old(tf)@,
            half_size.x as int,
            half_size.y as int,
            width as int,
            height as int,
            dt as int,
        ),
{
    tf.prev_pos = tf.pos;
    tf.pos.x = tf.pos.x + tf.vel.x;
    tf.pos.y = tf.pos.y + tf.vel.y;
    if tf.pos.x + half_size.x > width || tf.pos.x - half_size.x < 0 {
        tf.vel.x = -tf.vel.x;
    }
    if tf.pos.y + half_size.y > height || tf.pos.y - half_size.y < 0 {
        tf.vel.y = -tf.vel.y;
    }
    tf.angle = tf.angle + dt;
}

/// Advance `tf` one frame with the positional-correction bounce.
pub fn integrate_corrective(tf: &mut CTransform, radius: i64, width: i64, height: i64, dt: i64)
    requires
        old(tf).wf(),
        0 <= radius <= COORD_LIMIT,
        0 <= width <= COORD_LIMIT,
        0 <= height <= COORD_LIMIT,
        0 <= dt <= COORD_LIMIT,
    ensures
        final(tf)@ == corrective_step(old(tf)@, radius as int, width as int, height as int, dt as int),
{
    tf.prev_pos = tf.pos;
    tf.pos.x = tf.pos.x + tf.vel.x;
    tf.pos.y = tf.pos.y + tf.vel.y;
    if tf.pos.x + radius > width || tf.pos.x - radius < 0 {
        tf.vel.x = -tf.vel.x;
        tf.pos.x = tf.pos.x + tf.vel.x * 2;
    }
    if tf.pos.y + radius > height || tf.pos.y - radius < 0 {
        tf.vel.y = -tf.vel.y;
        tf.pos.y = tf.pos.y + tf.vel.y * 2;
    }
    tf.angle = tf.angle + dt;
}

/// Reflective bounce law: a step that carries an entity moving right past
/// `width - radius` flips the sign of `vel.x`, and flips it only once even
/// when both edge tests fire.
pub proof fn lemma_reflective_bounce_flips(tf: TransformM, radius: int, width: int, height: int, dt: int)
    requires
        tf.vel.x > 0,
        tf.pos.x + tf.vel.x + radius > width,
    ensures
        reflective_step(tf, radius, width, height, dt).vel.x == -tf.vel.x,
        reflective_step(tf, radius, width, height, dt).vel.x < 0,
{
}

/// Positional-correction law: on the flip frame the corrected position is
/// the overshot position moved back toward the interior by twice the
/// horizontal speed.
pub proof fn lemma_corrective_bounce_pushes_back(tf: TransformM, radius: int, width: int, height: int, dt: int)
    requires
        tf.vel.x > 0,
        tf.pos.x + tf.vel.x + radius > width,
    ensures
        corrective_step(tf, radius, width, height, dt).vel.x == -tf.vel.x,
        corrective_step(tf, radius, width, height, dt).pos.x == (tf.pos.x + tf.vel.x) - 2
            * vstd::math::abs(tf.vel.x),
{
}

} // verus!
