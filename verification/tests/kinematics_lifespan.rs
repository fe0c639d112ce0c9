use sim_core::components::CLifespan;
use sim_core::kinematics::{
    integrate_corrective, integrate_reflective, integrate_reflective_box, CTransform,
};
use sim_core::math::Vec2;

fn v(x: i64, y: i64) -> Vec2 {
    Vec2 { x, y }
}

#[test]
fn reflective_bounce_flips_velocity_once() {
    // Moving right across width - radius: the sign of vel.x flips, the
    // position is not clamped back inside.
    let mut tf = CTransform::new_moving(v(95, 50), v(10, 0), 0);
    integrate_reflective(&mut tf, 10, 100, 100, 1);
    assert_eq!(tf.pos.x, 105);
    assert_eq!(tf.vel.x, -10);
    assert_eq!(tf.prev_pos.x, 95);
    assert_eq!(tf.angle, 1);
}

#[test]
fn reflective_bounce_never_flips_twice() {
    // A circle wider than the whole arena violates both edges at once;
    // the velocity still flips exactly once.
    let mut tf = CTransform::new_moving(v(50, 50), v(1, 0), 0);
    integrate_reflective(&mut tf, 60, 100, 200, 0);
    assert_eq!(tf.vel.x, -1);
    assert_eq!(tf.vel.y, 0);
}

#[test]
fn reflective_bounce_keeps_inside_velocity() {
    let mut tf = CTransform::new_moving(v(40, 40), v(5, -5), 0);
    integrate_reflective(&mut tf, 10, 100, 100, 2);
    assert_eq!(tf.pos.x, 45);
    assert_eq!(tf.pos.y, 35);
    assert_eq!(tf.vel.x, 5);
    assert_eq!(tf.vel.y, -5);
    assert_eq!(tf.angle, 2);
}

#[test]
fn reflective_box_uses_half_size_per_axis() {
    // A 50x25 box: the horizontal extent 25 crosses the right edge, the
    // vertical extent 12 does not cross anything.
    let mut tf = CTransform::new_moving(v(70, 50), v(10, 2), 0);
    integrate_reflective_box(&mut tf, v(25, 12), 100, 100, 1);
    assert_eq!(tf.pos.x, 80);
    assert_eq!(tf.vel.x, -10);
    assert_eq!(tf.vel.y, 2);
}

#[test]
fn corrective_bounce_pushes_back_by_twice_the_speed() {
    // Overshoot to 105, flip to -10, nudge back two velocity steps: 85.
    let mut tf = CTransform::new_moving(v(95, 50), v(10, 0), 0);
    integrate_corrective(&mut tf, 10, 100, 100, 1);
    assert_eq!(tf.pos.x, 85);
    assert_eq!(tf.vel.x, -10);
    assert_eq!(tf.prev_pos.x, 95);
    assert_eq!(tf.pos.y, 50);
}

#[test]
fn corrective_bounce_low_edge() {
    let mut tf = CTransform::new_moving(v(12, 50), v(-5, 0), 0);
    integrate_corrective(&mut tf, 10, 100, 100, 0);
    // Moved to 7, which is under the radius; flipped to 5 and nudged to 17.
    assert_eq!(tf.pos.x, 17);
    assert_eq!(tf.vel.x, 5);
}

#[test]
fn orientation_accumulates_with_dt() {
    let mut tf = CTransform::new_moving(v(50, 50), v(0, 0), 3);
    integrate_corrective(&mut tf, 1, 100, 100, 7);
    assert_eq!(tf.angle, 10);
    integrate_reflective(&mut tf, 1, 100, 100, 5);
    assert_eq!(tf.angle, 15);
}

#[test]
fn previous_position_recorded_every_frame() {
    let mut tf = CTransform::new_moving(v(10, 20), v(1, 1), 0);
    integrate_corrective(&mut tf, 1, 100, 100, 1);
    assert_eq!(tf.prev_pos.x, 10);
    assert_eq!(tf.prev_pos.y, 20);
    integrate_corrective(&mut tf, 1, 100, 100, 1);
    assert_eq!(tf.prev_pos.x, 11);
    assert_eq!(tf.prev_pos.y, 21);
}

#[test]
fn lifespan_decreases_by_exactly_dt_until_destruction() {
    // total = 10, dt = 3: destroyed when remaining goes negative, on tick
    // 4 = ceil(10/3) rounded up from 3.33.
    let mut ls = CLifespan::new(10);
    assert!(!ls.age(3));
    assert_eq!(ls.remaining, 7);
    assert!(!ls.age(3));
    assert_eq!(ls.remaining, 4);
    assert!(!ls.age(3));
    assert_eq!(ls.remaining, 1);
    assert!(ls.age(3));
    assert_eq!(ls.remaining, -2);
    assert_eq!(ls.total, 10);
}

#[test]
fn lifespan_exact_multiple_survives_the_boundary_tick() {
    // total = 6, dt = 3: remaining hits exactly 0, which is not yet
    // destruction; the next tick takes it negative.
    let mut ls = CLifespan::new(6);
    assert!(!ls.age(3));
    assert!(!ls.age(3));
    assert_eq!(ls.remaining, 0);
    assert!(ls.age(3));
}

#[test]
fn alpha_is_remaining_over_total() {
    let mut ls = CLifespan::new(10);
    assert_eq!(ls.alpha_scaled(1000), 1000);
    ls.age(4);
    assert_eq!(ls.alpha_scaled(1000), 600);
    ls.age(5);
    assert_eq!(ls.alpha_scaled(1000), 100);
}
