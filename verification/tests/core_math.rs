use sim_core::geometry::{aabb_overlap, circles_intersect};
use sim_core::math::{scale_to_length, Vec2};
use sim_core::spawn::{aim_velocity, random_in_range, random_in_range_u32, SpawnTimer};

fn v(x: i64, y: i64) -> Vec2 {
    Vec2 { x, y }
}

#[test]
fn circles_symmetric_on_samples() {
    let cases = [
        (v(100, 100), 10, v(105, 100), 6),
        (v(0, 0), 1, v(100, 0), 1),
        (v(-5, 3), 4, v(2, -1), 4),
        (v(7, 7), 0, v(7, 7), 0),
    ];
    for (p1, r1, p2, r2) in cases {
        assert_eq!(
            circles_intersect(p1, r1, p2, r2),
            circles_intersect(p2, r2, p1, r1)
        );
    }
}

#[test]
fn circles_touching_do_not_collide() {
    // Centre distance 10 equals the radius sum: strict inequality says no.
    assert!(!circles_intersect(v(0, 0), 4, v(10, 0), 6));
    assert!(circles_intersect(v(0, 0), 4, v(9, 0), 6));
}

#[test]
fn aabb_overlap_symmetric_on_samples() {
    let cases = [
        (v(32, 32), v(100, 100), v(64, 64), v(100, 132)),
        (v(10, 20), v(0, 0), v(6, 6), v(-4, 9)),
        (v(0, 0), v(5, 5), v(8, 2), v(5, 5)),
    ];
    for (sa, pa, sb, pb) in cases {
        let o1 = aabb_overlap(sa, pa, sb, pb);
        let o2 = aabb_overlap(sb, pb, sa, pa);
        assert_eq!(o1.x, o2.x);
        assert_eq!(o1.y, o2.y);
    }
}

#[test]
fn aabb_overlap_exact_depths() {
    // Half sizes 16 and 32; centre distances 0 and 32.
    let o = aabb_overlap(v(32, 32), v(100, 100), v(64, 64), v(100, 132));
    assert_eq!(o.x, 48);
    assert_eq!(o.y, 16);
}

#[test]
fn aim_velocity_scenario() {
    // Shooter at the origin, target at (10, 0), speed 5.
    let vel = aim_velocity(v(0, 0), v(10, 0), 5);
    assert_eq!(vel.x, 5);
    assert_eq!(vel.y, 0);
}

#[test]
fn aim_velocity_degenerate_is_zero() {
    let vel = aim_velocity(v(5, 5), v(5, 5), 7);
    assert_eq!(vel.x, 0);
    assert_eq!(vel.y, 0);
}

#[test]
fn scale_to_length_diagonal() {
    // A unit diagonal scaled to 5: each component is 5 / sqrt(2), rounded
    // toward zero in fixed point.
    let vel = scale_to_length(v(1, 1), 5);
    assert_eq!(vel.x, 3);
    assert_eq!(vel.y, 3);
    let vel = scale_to_length(v(-1, 1), 5);
    assert_eq!(vel.x, -3);
    assert_eq!(vel.y, 3);
}

#[test]
fn random_float_range_never_reaches_max() {
    // The float-style variant on [0, 1): it must be able to return 0 and
    // must never return exactly 1.
    let mut state: u64 = 0x2545_F491_4F6C_DD1D;
    for _ in 0..1000 {
        // A small seeded generator standing in for the entropy source.
        state = state.wrapping_mul(6364136223846793005).wrapping_add(1442695040888963407);
        let draw = (state >> 32) as u32;
        let r = random_in_range(draw, 0, 1);
        assert_eq!(r, 0);
    }
    assert_eq!(random_in_range(0, 0, 1), 0);
    assert_eq!(random_in_range(u32::MAX, 0, 1), 0);
}

#[test]
fn random_float_range_spans_interval() {
    // On a wider range the sample stays in [min, max) and reaches min.
    assert_eq!(random_in_range(0, 10, 790), 10);
    let hi = random_in_range(u32::MAX, 10, 790);
    assert!((10..790).contains(&hi));
    assert_eq!(random_in_range(0, -3, 3), -3);
    assert!(random_in_range(u32::MAX, -3, 3) < 3);
}

#[test]
fn random_int_range_inclusive() {
    // The integer variant on [2, 4] reaches 2, 3 and 4.
    assert_eq!(random_in_range_u32(0, 2, 4), 2);
    assert_eq!(random_in_range_u32(1, 2, 4), 3);
    assert_eq!(random_in_range_u32(2, 2, 4), 4);
    assert_eq!(random_in_range_u32(3, 2, 4), 2);
    let mut state: u64 = 1;
    for _ in 0..100 {
        state = state.wrapping_mul(6364136223846793005).wrapping_add(1442695040888963407);
        let r = random_in_range_u32((state >> 32) as u32, 2, 4);
        assert!((2..=4).contains(&r));
    }
}

#[test]
fn spawn_timer_fires_on_exact_interval() {
    // Frame times summing to exactly the interval: one fire, at the frame
    // where the accumulated time first reaches it, then zero again.
    let mut t = SpawnTimer::new();
    assert!(!t.advance(4, 10));
    assert_eq!(t.elapsed, 4);
    assert!(!t.advance(3, 10));
    assert_eq!(t.elapsed, 7);
    assert!(t.advance(3, 10));
    assert_eq!(t.elapsed, 0);
}

#[test]
fn spawn_timer_resets_without_drift() {
    let mut t = SpawnTimer::new();
    assert!(t.advance(25, 10));
    // Reset to zero, not decremented by the interval.
    assert_eq!(t.elapsed, 0);
}
