use sim_core::components::PlayerIntent;
use sim_core::kinematics::CTransform;
use sim_core::math::Vec2;
use sim_core::platformer::{
    build_level, grid_to_world, platformer_player_step, resolve_collision_by_moving,
    resolve_tile_collisions, CBoundingBox, LevelConfig, Tile, TileSpec,
};

fn v(x: i64, y: i64) -> Vec2 {
    Vec2 { x, y }
}

fn tile_at(x: i64, y: i64) -> Tile {
    Tile { bb: CBoundingBox::new(v(64, 64)), tf: CTransform::new(v(x, y)) }
}

#[test]
fn bounding_box_halves_its_size() {
    let bb = CBoundingBox::new(v(32, 48));
    assert_eq!(bb.size.x, 32);
    assert_eq!(bb.half_size.x, 16);
    assert_eq!(bb.half_size.y, 24);
}

#[test]
fn tile_collision_resolved_as_vertical_push() {
    // Player box 32x32 at (100,100), tile 64x64 at (100,132), at rest:
    // both overlaps positive, the previous-frame X overlap already
    // positive, so the push is vertical only — down, away from the tile.
    let p_bb = CBoundingBox::new(v(32, 32));
    let mut p_tf = CTransform::new(v(100, 100));
    let tiles = vec![tile_at(100, 132)];
    resolve_tile_collisions(&p_bb, &mut p_tf, &tiles);
    assert_eq!(p_tf.pos.x, 100);
    assert_eq!(p_tf.pos.y, 84);
}

#[test]
fn tile_collision_from_above_pushes_up() {
    let p_bb = CBoundingBox::new(v(32, 32));
    let mut p_tf = CTransform::new(v(100, 150));
    let tiles = vec![tile_at(100, 132)];
    resolve_tile_collisions(&p_bb, &mut p_tf, &tiles);
    // Overlap y = 16 + 32 - 18 = 30; pushed up by it.
    assert_eq!(p_tf.pos.x, 100);
    assert_eq!(p_tf.pos.y, 180);
}

#[test]
fn horizontal_push_when_vertically_prealigned() {
    // Previous-frame X overlap non-positive, Y overlap positive: the hit
    // is horizontal; the player stands right of the tile and is pushed
    // further right by the X overlap.
    let overlap = v(5, 20);
    let prev_overlap = v(0, 20);
    let mut p_pos = v(200, 100);
    resolve_collision_by_moving(overlap, prev_overlap, &mut p_pos, v(190, 100));
    assert_eq!(p_pos.x, 205);
    assert_eq!(p_pos.y, 100);
}

#[test]
fn corner_fallback_uses_current_quadrant() {
    // Neither axis was aligned last frame; the player sits above the
    // tile, so the coarse fallback pushes up.
    let overlap = v(4, 6);
    let prev_overlap = v(0, 0);
    let mut p_pos = v(100, 110);
    resolve_collision_by_moving(overlap, prev_overlap, &mut p_pos, v(96, 100));
    assert_eq!(p_pos.x, 100);
    assert_eq!(p_pos.y, 116);
}

#[test]
fn non_overlapping_tiles_leave_the_player_alone() {
    let p_bb = CBoundingBox::new(v(32, 32));
    let mut p_tf = CTransform::new(v(100, 100));
    let tiles = vec![tile_at(400, 400), tile_at(-200, 100)];
    resolve_tile_collisions(&p_bb, &mut p_tf, &tiles);
    assert_eq!(p_tf.pos.x, 100);
    assert_eq!(p_tf.pos.y, 100);
}

#[test]
fn grid_cells_map_to_their_centres() {
    let p = grid_to_world(2, 3);
    assert_eq!(p.x, 160);
    assert_eq!(p.y, 224);
    let origin = grid_to_world(0, 0);
    assert_eq!(origin.x, 32);
    assert_eq!(origin.y, 32);
}

#[test]
fn build_level_splits_solid_from_decoration() {
    let level = LevelConfig {
        tiles: vec![
            TileSpec { solid: 1, kind: 0, grid_x: 0, grid_y: 0 },
            TileSpec { solid: 0, kind: 2, grid_x: 1, grid_y: 0 },
            TileSpec { solid: 1, kind: 0, grid_x: 2, grid_y: 5 },
        ],
    };
    let (solid, decoration) = build_level(&level);
    assert_eq!(solid.len(), 2);
    assert_eq!(decoration.len(), 1);
    assert_eq!(solid[0].tf.pos.x, 32);
    assert_eq!(solid[1].tf.pos.x, 160);
    assert_eq!(solid[1].tf.pos.y, 352);
    assert_eq!(decoration[0].tf.pos.x, 96);
    assert_eq!(solid[0].bb.size.x, 64);
    assert_eq!(solid[0].bb.half_size.y, 32);
}

#[test]
fn player_step_moves_one_velocity_step() {
    let mut tf = CTransform::new(v(100, 100));
    let intent = PlayerIntent {
        move_up: false,
        move_down: false,
        move_left: false,
        move_right: true,
        fire_at: None,
    };
    platformer_player_step(&mut tf, &intent, 5);
    assert_eq!(tf.vel.x, 5);
    assert_eq!(tf.vel.y, 0);
    assert_eq!(tf.pos.x, 105);
    assert_eq!(tf.prev_pos.x, 100);
}

#[test]
fn player_step_diagonal_is_normalized() {
    let mut tf = CTransform::new(v(0, 0));
    let intent = PlayerIntent {
        move_up: true,
        move_down: false,
        move_left: false,
        move_right: true,
        fire_at: None,
    };
    platformer_player_step(&mut tf, &intent, 5);
    // 5 / sqrt(2) in fixed point, rounded toward zero.
    assert_eq!(tf.vel.x, 3);
    assert_eq!(tf.vel.y, 3);
}

#[test]
fn player_step_idle_stands_still() {
    let mut tf = CTransform::new(v(9, 9));
    platformer_player_step(&mut tf, &PlayerIntent::idle(), 5);
    assert_eq!(tf.vel.x, 0);
    assert_eq!(tf.vel.y, 0);
    assert_eq!(tf.pos.x, 9);
}
