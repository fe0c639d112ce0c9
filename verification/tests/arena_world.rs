use sim_core::arena::{
    BulletConfig, EnemyConfig, EnemyDraws, PlayerConfig, SimConfig, WindowConfig, World,
};
use sim_core::components::{CLifespan, Color, CShape, PlayerIntent};
use sim_core::kinematics::CTransform;
use sim_core::math::Vec2;
use sim_core::store::{Category, Entity, Store};

fn v(x: i64, y: i64) -> Vec2 {
    Vec2 { x, y }
}

fn test_config() -> SimConfig {
    SimConfig {
        window: WindowConfig { width: 800, height: 600 },
        player: PlayerConfig {
            shape_radius: 20,
            collision_radius: 20,
            speed: 5,
            color: Color::rgb(0, 500, 1000),
            vertices: 8,
        },
        enemy: EnemyConfig {
            shape_radius: 10,
            collision_radius: 10,
            min_speed: 0,
            max_speed: 0,
            min_vertices: 3,
            max_vertices: 8,
            spawn_interval: 10,
        },
        bullet: BulletConfig {
            shape_radius: 6,
            collision_radius: 6,
            speed: 5,
            color: Color::rgb(1000, 1000, 0),
            vertices: 10,
            lifespan: 5,
        },
    }
}

fn no_draws() -> EnemyDraws {
    EnemyDraws {
        pos_x: 0,
        pos_y: 0,
        vel_x: 0,
        vel_y: 0,
        red: 0,
        green: 0,
        blue: 0,
        vertices: 0,
    }
}

fn circle_entity(cat: Category, pos: Vec2, radius: i64, lifespan: Option<CLifespan>) -> Entity {
    Entity {
        category: cat,
        transform: CTransform::new(pos),
        shape: CShape { radius, color: Color::rgb(500, 500, 500), vertices: 6 },
        collision_radius: radius,
        lifespan,
    }
}

#[test]
fn new_world_holds_one_player_at_the_centre() {
    let w = World::new(test_config());
    assert!(w.check_wf());
    let drawables = w.render_list();
    assert_eq!(drawables.len(), 1);
    assert_eq!(drawables[0].position.x, 400);
    assert_eq!(drawables[0].position.y, 300);
    assert_eq!(drawables[0].radius, 20);
    assert_eq!(drawables[0].alpha, 1000);
}

#[test]
fn enemy_and_bullet_destroyed_after_one_collision_pass() {
    // Enemy at (100,100) radius 10, bullet at (105,100) radius 6:
    // distance 5 is under the radius sum 16, so one pass destroys both.
    let mut w = World::new(test_config());
    w.store.spawn(circle_entity(Category::Enemy, v(100, 100), 10, None));
    w.store.spawn(circle_entity(
        Category::Bullet,
        v(105, 100),
        6,
        Some(CLifespan::new(100)),
    ));
    w.collide_phase();
    assert!(w.store.slots[1].doomed);
    assert!(w.store.slots[2].doomed);
    assert!(!w.store.slots[0].doomed);
    w.store.sweep();
    assert!(w.store.slots[1].occupant.is_none());
    assert!(w.store.slots[2].occupant.is_none());
    let drawables = w.render_list();
    assert_eq!(drawables.len(), 1);
}

#[test]
fn collision_pass_within_a_tick() {
    let mut w = World::new(test_config());
    w.store.spawn(circle_entity(Category::Enemy, v(100, 100), 10, None));
    w.store.spawn(circle_entity(
        Category::Bullet,
        v(105, 100),
        6,
        Some(CLifespan::new(100)),
    ));
    let drawables = w.tick(0, &PlayerIntent::idle(), &no_draws());
    // Player survives far away; enemy and bullet are gone.
    assert_eq!(drawables.len(), 1);
    assert_eq!(drawables[0].position.x, 400);
}

#[test]
fn enemy_reaching_player_respawns_player_at_centre() {
    let mut w = World::new(test_config());
    // An enemy right on the player: the player is destroyed and a new
    // one appears at the arena centre; the enemy survives the pass.
    w.store.spawn(circle_entity(Category::Enemy, v(400, 300), 10, None));
    let drawables = w.tick(0, &PlayerIntent::idle(), &no_draws());
    assert_eq!(drawables.len(), 2);
    let players: Vec<_> = drawables.iter().filter(|d| d.radius == 20).collect();
    assert_eq!(players.len(), 1);
    assert_eq!(players[0].position.x, 400);
    assert_eq!(players[0].position.y, 300);
    let enemies: Vec<_> = drawables.iter().filter(|d| d.radius == 10).collect();
    assert_eq!(enemies.len(), 1);
}

#[test]
fn timed_spawner_creates_one_enemy_when_interval_is_reached() {
    let mut w = World::new(test_config());
    let idle = PlayerIntent::idle();
    assert_eq!(w.tick(4, &idle, &no_draws()).len(), 1);
    assert_eq!(w.enemy_timer.elapsed, 4);
    assert_eq!(w.tick(3, &idle, &no_draws()).len(), 1);
    assert_eq!(w.enemy_timer.elapsed, 7);
    // Accumulated time reaches the interval exactly: one enemy, timer 0.
    let drawables = w.tick(3, &idle, &no_draws());
    assert_eq!(drawables.len(), 2);
    assert_eq!(w.enemy_timer.elapsed, 0);
}

#[test]
fn spawned_enemy_uses_the_draws() {
    let mut w = World::new(test_config());
    let idle = PlayerIntent::idle();
    // Interval 10 reached in one step; all draws zero pick each range's
    // low end: position (radius, radius), zero velocity, colour channels
    // 200, three vertices.
    let drawables = w.tick(10, &idle, &no_draws());
    assert_eq!(drawables.len(), 2);
    let enemy = drawables.iter().find(|d| d.radius == 10).unwrap();
    assert_eq!(enemy.position.x, 10);
    assert_eq!(enemy.position.y, 10);
    assert_eq!(enemy.color.red, 200);
    assert_eq!(enemy.color.green, 200);
    assert_eq!(enemy.color.blue, 200);
    assert_eq!(enemy.vertices, 3);
    // Spin accumulated over its first frame.
    assert_eq!(enemy.orientation, 10);
}

#[test]
fn fire_request_spawns_a_bullet_aimed_at_the_target() {
    let mut w = World::new(test_config());
    let fire = PlayerIntent { fire_at: Some(v(410, 300)), ..PlayerIntent::idle() };
    let drawables = w.tick(0, &fire, &no_draws());
    assert_eq!(drawables.len(), 2);
    let bullet = drawables.iter().find(|d| d.radius == 6).unwrap();
    // Spawned at the player and integrated one step at speed 5.
    assert_eq!(bullet.position.x, 405);
    assert_eq!(bullet.position.y, 300);
    assert_eq!(bullet.alpha, 1000);
}

#[test]
fn bullet_fades_and_expires_by_lifespan() {
    let mut w = World::new(test_config());
    let fire = PlayerIntent { fire_at: Some(v(410, 300)), ..PlayerIntent::idle() };
    let idle = PlayerIntent::idle();
    assert_eq!(w.tick(0, &fire, &no_draws()).len(), 2);
    // Lifespan 5, aged 2 per tick: alpha 600, then 200, then destroyed —
    // tick ceil(5/2) = 3.
    let d1 = w.tick(2, &idle, &no_draws());
    let b1 = d1.iter().find(|d| d.radius == 6).unwrap();
    assert_eq!(b1.alpha, 600);
    let d2 = w.tick(2, &idle, &no_draws());
    let b2 = d2.iter().find(|d| d.radius == 6).unwrap();
    assert_eq!(b2.alpha, 200);
    let d3 = w.tick(2, &idle, &no_draws());
    assert!(d3.iter().find(|d| d.radius == 6).is_none());
    assert_eq!(d3.len(), 1);
}

#[test]
fn fire_request_without_player_is_skipped() {
    let mut w = World::new(test_config());
    w.store.mark_doomed(0);
    w.store.sweep();
    let fire = PlayerIntent { fire_at: Some(v(410, 300)), ..PlayerIntent::idle() };
    let drawables = w.tick(0, &fire, &no_draws());
    assert_eq!(drawables.len(), 0);
}

#[test]
fn player_moves_with_intent() {
    let mut w = World::new(test_config());
    let right = PlayerIntent { move_right: true, ..PlayerIntent::idle() };
    let drawables = w.tick(1, &right, &no_draws());
    assert_eq!(drawables[0].position.x, 405);
    assert_eq!(drawables[0].position.y, 300);
}

#[test]
fn store_reuses_slots_and_detects_stale_ids() {
    let mut store = Store::new();
    let first = store.spawn(circle_entity(Category::Enemy, v(1, 1), 2, None));
    assert_eq!(first.index, 0);
    assert_eq!(first.generation, 0);
    assert!(store.get(first).is_some());
    store.mark_doomed(0);
    store.sweep();
    assert!(store.get(first).is_none());
    let second = store.spawn(circle_entity(Category::Enemy, v(2, 2), 2, None));
    // The slot is reused under a new generation; the old id stays dead.
    assert_eq!(second.index, 0);
    assert_eq!(second.generation, 1);
    assert!(store.get(first).is_none());
    assert!(store.get(second).is_some());
}

#[test]
fn check_wf_rejects_out_of_range_entities() {
    let mut w = World::new(test_config());
    assert!(w.check_wf());
    w.store.spawn(circle_entity(Category::Enemy, v(5, 5), -1, None));
    assert!(!w.check_wf());
}
