//! The arena game: a player steered by intent, enemies spawned on an
//! interval with randomized attributes, bullets aimed at a target point,
//! circle-circle collision resolution and lifespan-driven despawning,
//! advanced one tick per frame in a fixed order: spawn, integrate,
//! resolve collisions, age lifespans, sweep, and hand back the drawable
//! state.

use vstd::prelude::*;
use crate::components::{CLifespan, Color, CShape, PlayerIntent, COLOR_FULL};
use crate::geometry::{circles_intersect, circles_intersect_spec};
use crate::kinematics::{corrective_step, integrate_corrective, CTransform, TransformM};
use crate::math::{scale_to_length, scale_to_length_spec, Vec2, V2};
use crate::spawn::{random_in_range, random_in_range_u32, range_sample, range_sample_u32, SpawnTimer};
use crate::store::{
    first_cat_from, live_cat, spawn_slot_spec, sweep_slot_spec, unique_cat, Category, Entity,
    Slot, Store,
};
use crate::{COORD_LIMIT, POS_LIMIT};

verus! {

/// Lower bound of the random colour channels given to spawned enemies:
/// a fixed sub-range keeps them visibly bright.
pub const ENEMY_COLOR_MIN: i64 = 200;

/// Arena size, loaded by the window collaborator.
#[derive(Clone, Copy, Debug)]
pub struct WindowConfig {
    pub width: i64,
    pub height: i64,
}

impl WindowConfig {
    pub open spec fn wf(self) -> bool {
        0 <= self.width <= COORD_LIMIT && 0 <= self.height <= COORD_LIMIT
    }
}

/// Player parameters, loaded once before the simulation starts.
#[derive(Clone, Copy, Debug)]
pub struct PlayerConfig {
    pub shape_radius: i64,
    pub collision_radius: i64,
    pub speed: i64,
    pub color: Color,
    pub vertices: u32,
}

impl PlayerConfig {
    pub open spec fn wf(self) -> bool {
        0 <= self.shape_radius <= COORD_LIMIT && 0 <= self.collision_radius <= COORD_LIMIT && 0
            <= self.speed <= COORD_LIMIT
    }
}

/// Enemy parameters: geometry, speed range, vertex range and the spawn
/// interval.
#[derive(Clone, Copy, Debug)]
pub struct EnemyConfig {
    pub shape_radius: i64,
    pub collision_radius: i64,
    pub min_speed: i64,
    pub max_speed: i64,
    pub min_vertices: u32,
    pub max_vertices: u32,
    pub spawn_interval: i64,
}

impl EnemyConfig {
    pub open spec fn wf(self) -> bool {
        0 <= self.shape_radius <= COORD_LIMIT && 0 <= self.collision_radius <= COORD_LIMIT
            && -COORD_LIMIT <= self.min_speed <= self.max_speed <= COORD_LIMIT
            && self.min_vertices <= self.max_vertices && self.max_vertices - self.min_vertices
            < 0xffff_ffff && 0 <= self.spawn_interval <= COORD_LIMIT
    }
}

/// Bullet parameters: geometry, speed and lifespan.
#[derive(Clone, Copy, Debug)]
pub struct BulletConfig {
    pub shape_radius: i64,
    pub collision_radius: i64,
    pub speed: i64,
    pub color: Color,
    pub vertices: u32,
    pub lifespan: i64,
}

impl BulletConfig {
    pub open spec fn wf(self) -> bool {
        0 <= self.shape_radius <= COORD_LIMIT && 0 <= self.collision_radius <= COORD_LIMIT && 0
            <= self.speed <= COORD_LIMIT && 0 < self.lifespan <= COORD_LIMIT
    }
}

/// The full read-only configuration of the arena game.
#[derive(Clone, Copy, Debug)]
pub struct SimConfig {
    pub window: WindowConfig,
    pub player: PlayerConfig,
    pub enemy: EnemyConfig,
    pub bullet: BulletConfig,
}

impl SimConfig {
    pub open spec fn wf(self) -> bool {
        self.window.wf() && self.player.wf() && self.enemy.wf() && self.bullet.wf() && 2
            * self.enemy.shape_radius <= self.window.width && 2 * self.enemy.shape_radius
            <= self.window.height
    }
}

/// The eight uniform draws one enemy spawn consumes, in the order the
/// spawner uses them: position x and y, velocity x and y, the three
/// colour channels, and the vertex count.
#[derive(Clone, Copy, Debug, PartialEq, Eq, Structural)]
pub struct EnemyDraws {
    pub pos_x: u32,
    pub pos_y: u32,
    pub vel_x: u32,
    pub vel_y: u32,
    pub red: u32,
    pub green: u32,
    pub blue: u32,
    pub vertices: u32,
}

/// An entity all of whose scalars respect the simulation limits at a
/// tick boundary.
pub open spec fn entity_wf(e: Entity) -> bool {
    e.transform.wf() && 0 <= e.shape.radius <= COORD_LIMIT && 0 <= e.collision_radius
        <= COORD_LIMIT && match e.lifespan {
        Some(ls) => ls.wf() && 0 <= ls.remaining,
        None => true,
    }
}

/// Every occupied slot holds a well-formed entity.
pub open spec fn store_wf(s: Seq<Slot>) -> bool {
    forall|i: int|
        0 <= i < s.len() ==> match (#[trigger] s[i]).occupant {
            Some(e) => entity_wf(e),
            None => true,
        }
}

/// The looser bound that holds mid-tick, after integration has moved
/// positions but before the caller re-checks the world: positions and
/// angles may have drifted one step past [`POS_LIMIT`].
pub open spec fn entity_mid(e: Entity) -> bool {
    e.transform.pos.bounded(2 * POS_LIMIT as int) && e.transform.prev_pos.bounded(
        2 * POS_LIMIT as int,
    ) && e.transform.vel.bounded(COORD_LIMIT as int) && 0 <= e.shape.radius <= COORD_LIMIT && 0
        <= e.collision_radius <= COORD_LIMIT && match e.lifespan {
        Some(ls) => ls.wf() && 0 <= ls.remaining,
        None => true,
    }
}

pub open spec fn store_mid(s: Seq<Slot>) -> bool {
    forall|i: int|
        0 <= i < s.len() ==> match (#[trigger] s[i]).occupant {
            Some(e) => entity_mid(e),
            None => true,
        }
}

/// The player entity in its arena-centre default state.
pub open spec fn player_entity_spec(config: SimConfig) -> Entity {
    Entity {
        category: Category::Player,
        transform: CTransform {
            pos: Vec2 {
                x: (config.window.width / 2) as i64,
                y: (config.window.height / 2) as i64,
            },
            prev_pos: Vec2 {
                x: (config.window.width / 2) as i64,
                y: (config.window.height / 2) as i64,
            },
            vel: Vec2 { x: 0, y: 0 },
            angle: 0,
        },
        shape: CShape {
            radius: config.player.shape_radius,
            color: config.player.color,
            vertices: config.player.vertices,
        },
        collision_radius: config.player.collision_radius,
        lifespan: None,
    }
}

/// Build the player entity at the arena centre with zero velocity.
pub fn player_entity(config: &SimConfig) -> (e: Entity)
    requires
        config.wf(),
    ensures
        e == player_entity_spec(*config),
        entity_wf(e),
{
    Entity {
        category: Category::Player,
        transform: CTransform::new(
            Vec2 { x: config.window.width / 2, y: config.window.height / 2 },
        ),
        shape: CShape {
            radius: config.player.shape_radius,
            color: config.player.color,
            vertices: config.player.vertices,
        },
        collision_radius: config.player.collision_radius,
        lifespan: None,
    }
}

/// A bullet fired from `pos` toward `target`: its velocity is the aim
/// direction scaled to the configured speed, and it carries the
/// configured lifespan from the start.
pub open spec fn bullet_entity_spec(config: SimConfig, pos: Vec2, target: Vec2) -> Entity {
    let vel = scale_to_length_spec(
        V2 { x: target@.x - pos@.x, y: target@.y - pos@.y },
        config.bullet.speed as int,
    );
    Entity {
        category: Category::Bullet,
        transform: CTransform {
            pos,
            prev_pos: pos,
            vel: Vec2 { x: vel.x as i64, y: vel.y as i64 },
            angle: 0,
        },
        shape: CShape {
            radius: config.bullet.shape_radius,
            color: config.bullet.color,
            vertices: config.bullet.vertices,
        },
        collision_radius: config.bullet.collision_radius,
        lifespan: Some(
            CLifespan { remaining: config.bullet.lifespan, total: config.bullet.lifespan },
        ),
    }
}

/// Build the bullet entity of a fire request.
pub fn bullet_entity(config: &SimConfig, pos: Vec2, target: Vec2) -> (e: Entity)
    requires
        config.wf(),
        pos.bounded(COORD_LIMIT as int),
        target.bounded(COORD_LIMIT as int),
    ensures
        e == bullet_entity_spec(*config, pos, target),
        entity_wf(e),
{
    let vel = crate::spawn::aim_velocity(pos, target, config.bullet.speed);
    Entity {
        category: Category::Bullet,
        transform: CTransform::new_moving(pos, vel, 0),
        shape: CShape {
            radius: config.bullet.shape_radius,
            color: config.bullet.color,
            vertices: config.bullet.vertices,
        },
        collision_radius: config.bullet.collision_radius,
        lifespan: Some(CLifespan::new(config.bullet.lifespan)),
    }
}

/// An enemy built from the eight uniform draws: a position uniform in
/// `[radius, bound - radius]` on each axis, a velocity with each axis
/// uniform in the configured speed range, colour channels uniform in
/// `[ENEMY_COLOR_MIN, COLOR_FULL)`, and a vertex count uniform over the
/// configured inclusive range.
pub open spec fn enemy_entity_spec(config: SimConfig, draws: EnemyDraws) -> Entity {
    let r = config.enemy.shape_radius as int;
    let px = range_sample(draws.pos_x as int, r, config.window.width - r);
    let py = range_sample(draws.pos_y as int, r, config.window.height - r);
    let vx = range_sample(draws.vel_x as int, config.enemy.min_speed as int, config.enemy.max_speed as int);
    let vy = range_sample(draws.vel_y as int, config.enemy.min_speed as int, config.enemy.max_speed as int);
    Entity {
        category: Category::Enemy,
        transform: CTransform {
            pos: Vec2 { x: px as i64, y: py as i64 },
            prev_pos: Vec2 { x: px as i64, y: py as i64 },
            vel: Vec2 { x: vx as i64, y: vy as i64 },
            angle: 0,
        },
        shape: CShape {
            radius: config.enemy.shape_radius,
            color: Color {
                red: range_sample(draws.red as int, ENEMY_COLOR_MIN as int, COLOR_FULL as int) as i64,
                green: range_sample(draws.green as int, ENEMY_COLOR_MIN as int, COLOR_FULL as int) as i64,
                blue: range_sample(draws.blue as int, ENEMY_COLOR_MIN as int, COLOR_FULL as int) as i64,
                alpha: COLOR_FULL,
            },
            vertices: range_sample_u32(
                draws.vertices as int,
                config.enemy.min_vertices as int,
                config.enemy.max_vertices as int,
            ) as u32,
        },
        collision_radius: config.enemy.collision_radius,
        lifespan: None,
    }
}

/// Build the enemy entity of a timed spawn from the supplied draws.
pub fn enemy_entity(config: &SimConfig, draws: &EnemyDraws) -> (e: Entity)
    requires
        config.wf(),
    ensures
        e == enemy_entity_spec(*config, *draws),
        entity_wf(e),
{
    let r = config.enemy.shape_radius;
    let px = random_in_range(draws.pos_x, r, config.window.width - r);
    let py = random_in_range(draws.pos_y, r, config.window.height - r);
    let vx = random_in_range(draws.vel_x, config.enemy.min_speed, config.enemy.max_speed);
    let vy = random_in_range(draws.vel_y, config.enemy.min_speed, config.enemy.max_speed);
    let red = random_in_range(draws.red, ENEMY_COLOR_MIN, COLOR_FULL);
    let green = random_in_range(draws.green, ENEMY_COLOR_MIN, COLOR_FULL);
    let blue = random_in_range(draws.blue, ENEMY_COLOR_MIN, COLOR_FULL);
    let vertices = random_in_range_u32(
        draws.vertices,
        config.enemy.min_vertices,
        config.enemy.max_vertices,
    );
    Entity {
        category: Category::Enemy,
        transform: CTransform::new_moving(Vec2 { x: px, y: py }, Vec2 { x: vx, y: vy }, 0),
        shape: CShape {
            radius: r,
            color: Color { red, green, blue, alpha: COLOR_FULL },
            vertices,
        },
        collision_radius: config.enemy.collision_radius,
        lifespan: None,
    }
}

/// Spawning a well-formed entity keeps the store well formed and grows
/// it by at most one slot.
pub proof fn lemma_spawn_preserves_wf(s: Seq<Slot>, e: Entity)
    requires
        store_wf(s),
        entity_wf(e),
    ensures
        store_wf(spawn_slot_spec(s, e)),
        s.len() <= spawn_slot_spec(s, e).len() <= s.len() + 1,
{
    crate::store::lemma_first_free_from_props(s, 0);
}

/// The whole mutable state of the arena game: the read-only
/// configuration, the entity store and the enemy spawn timer. One
/// simulation tick per rendered frame advances it; there is no other
/// writer.
#[derive(Clone, Debug)]
pub struct World {
    pub config: SimConfig,
    pub store: Store,
    pub enemy_timer: SpawnTimer,
}

impl World {
    /// The tick-boundary invariant: a valid configuration, a well-formed
    /// store with room to spawn, and a timer that never holds more than
    /// one interval.
    pub open spec fn wf(self) -> bool {
        self.config.wf() && store_wf(self.store.slots@) && 0 <= self.enemy_timer.elapsed
            <= self.config.enemy.spawn_interval && self.store.slots@.len() + 3 < usize::MAX
    }

    /// A fresh world: the player stands alone at the arena centre and the
    /// spawn timer starts empty.
    pub fn new(config: SimConfig) -> (w: World)
        requires
            config.wf(),
        ensures
            w.wf(),
            w.config == config,
            w.enemy_timer.elapsed == 0,
            w.store.slots@.len() == 1,
            w.store.slots@[0].occupant == Some(player_entity_spec(config)),
    {
        let mut store = Store::new();
        let player = player_entity(&config);
        store.spawn(player);
        World { config, store, enemy_timer: SpawnTimer::new() }
    }

    /// The spawner: fire a bullet from the single player toward the
    /// requested target if there is one, then accumulate the enemy timer
    /// and create one randomized enemy when it fires. A fire request is
    /// ignored when there is no single player or when shooter or target
    /// sit outside the representable arena.
    pub fn spawn_phase(&mut self, dt: i64, intent: &PlayerIntent, draws: &EnemyDraws)
        requires
            old(self).wf(),
            0 <= dt <= COORD_LIMIT,
        ensures
            final(self).config == old(self).config,
            final(self).store.slots@ == spawn_phase_store(
                old(self).store.slots@,
                old(self).config,
                *intent,
                old(self).enemy_timer.elapsed + dt >= old(self).config.enemy.spawn_interval,
                *draws,
            ),
            final(self).enemy_timer.elapsed == (if old(self).enemy_timer.elapsed + dt >= old(
                self,
            ).config.enemy.spawn_interval {
                0int
            } else {
                old(self).enemy_timer.elapsed + dt
            }),
            store_wf(final(self).store.slots@),
            old(self).store.slots@.len() <= final(self).store.slots@.len() <= old(
                self,
            ).store.slots@.len() + 2,
            0 <= final(self).enemy_timer.elapsed <= final(self).config.enemy.spawn_interval,
    {
        if let Some(target) = intent.fire_at {
            if let Some(pi) = self.store.find_unique(Category::Player) {
                proof {
                    crate::store::lemma_first_cat_from_props(
                        self.store.slots@,
                        Category::Player,
                        0,
                    );
                }
                let slot = self.store.slots[pi];
                if let Some(p) = slot.occupant {
                    if p.transform.pos.within(COORD_LIMIT) && target.within(COORD_LIMIT) {
                        let bullet = bullet_entity(&self.config, p.transform.pos, target);
                        proof {
                            lemma_spawn_preserves_wf(self.store.slots@, bullet);
                        }
                        self.store.spawn(bullet);
                    }
                }
            }
        }
        let fired = self.enemy_timer.advance(dt, self.config.enemy.spawn_interval);
        if fired {
            let e = enemy_entity(&self.config, draws);
            proof {
                lemma_spawn_preserves_wf(self.store.slots@, e);
            }
            self.store.spawn(e);
        }
    }
}

/// A transform model folded back into machine integers; the identity
/// whenever every component is in range, as the mid-tick bounds
/// guarantee.
pub open spec fn clip_transform(m: TransformM) -> CTransform {
    CTransform {
        pos: Vec2 { x: m.pos.x as i64, y: m.pos.y as i64 },
        prev_pos: Vec2 { x: m.prev_pos.x as i64, y: m.prev_pos.y as i64 },
        vel: Vec2 { x: m.vel.x as i64, y: m.vel.y as i64 },
        angle: m.angle as i64,
    }
}

/// One slot after the kinematics system: the single player first takes
/// its velocity from the intent (the direction scaled to the configured
/// speed), then every entity but surplus players advances one
/// positional-correction step inside the window bounds.
pub open spec fn integrate_slot_spec(
    slot: Slot,
    is_the_player: bool,
    config: SimConfig,
    intent: PlayerIntent,
    dt: int,
) -> Slot {
    match slot.occupant {
        Some(e) => if e.category == Category::Player && !is_the_player {
            slot
        } else {
            let tf0 = if is_the_player && e.category == Category::Player {
                TransformM {
                    pos: e.transform.pos@,
                    prev_pos: e.transform.prev_pos@,
                    vel: scale_to_length_spec(intent.dir_spec(), config.player.speed as int),
                    angle: e.transform.angle as int,
                }
            } else {
                e.transform@
            };
            Slot {
                occupant: Some(
                    Entity {
                        transform: clip_transform(
                            corrective_step(
                                tf0,
                                e.shape.radius as int,
                                config.window.width as int,
                                config.window.height as int,
                                dt,
                            ),
                        ),
                        ..e
                    },
                ),
                ..slot
            }
        },
        None => slot,
    }
}

/// The store after the kinematics system has advanced every entity.
pub open spec fn integrate_phase_store(
    s: Seq<Slot>,
    config: SimConfig,
    intent: PlayerIntent,
    dt: int,
) -> Seq<Slot> {
    let p = unique_cat(s, Category::Player);
    Seq::new(s.len(), |i: int| integrate_slot_spec(s[i], p == Some(i), config, intent, dt))
}

impl World {
    /// The kinematics system: give the single player its velocity from
    /// the intent, then advance every entity one positional-correction
    /// step. Surplus players (never more than transiently possible) are
    /// left untouched, as a failed singleton query leaves them.
    pub fn integrate_phase(&mut self, dt: i64, intent: &PlayerIntent)
        requires
            old(self).config.wf(),
            store_wf(old(self).store.slots@),
            0 <= dt <= COORD_LIMIT,
        ensures
            final(self).config == old(self).config,
            final(self).enemy_timer == old(self).enemy_timer,
            final(self).store.slots@ == integrate_phase_store(
                old(self).store.slots@,
                old(self).config,
                *intent,
                dt as int,
            ),
            store_mid(final(self).store.slots@),
            final(self).store.slots@.len() == old(self).store.slots@.len(),
    {
        let ghost s0 = self.store.slots@;
        let pidx = self.store.find_unique(Category::Player);
        let n = self.store.slots.len();
        let mut i: usize = 0;
        while i < n
            invariant
                0 <= i <= n,
                n == self.store.slots@.len() == s0.len(),
                self.config == old(self).config,
                self.enemy_timer == old(self).enemy_timer,
                self.config.wf(),
                store_wf(s0),
                0 <= dt <= COORD_LIMIT,
                match pidx {
                    Some(p) => unique_cat(s0, Category::Player) == Some(p as int),
                    None => unique_cat(s0, Category::Player) is None,
                },
                forall|j: int| i <= j < n ==> self.store.slots@[j] == s0[j],
                forall|j: int|
                    0 <= j < i ==> self.store.slots@[j] == integrate_slot_spec(
                        s0[j],
                        unique_cat(s0, Category::Player) == Some(j),
                        old(self).config,
                        *intent,
                        dt as int,
                    ),
            decreases n - i,
        {
            let slot = self.store.slots[i];
            if let Some(e) = slot.occupant {
                let is_the_player = match pidx {
                    Some(p) => p == i,
                    None => false,
                };
                let is_player_cat = e.category == Category::Player;
                if !(is_player_cat && !is_the_player) {
                    let mut tf = e.transform;
                    if is_the_player && is_player_cat {
                        let d = intent.dir();
                        tf.vel = scale_to_length(d, self.config.player.speed);
                    }
                    integrate_corrective(
                        &mut tf,
                        e.shape.radius,
                        self.config.window.width,
                        self.config.window.height,
                        dt,
                    );
                    self.store.slots.set(
                        i,
                        Slot { occupant: Some(Entity { transform: tf, ..e }), ..slot },
                    );
                }
            }
            i = i + 1;
        }
        proof {
            assert(self.store.slots@ =~= integrate_phase_store(
                s0,
                old(self).config,
                *intent,
                dt as int,
            ));
            assert forall|j: int| 0 <= j < self.store.slots@.len() implies match (
            #[trigger] self.store.slots@[j]).occupant {
                Some(e) => entity_mid(e),
                None => true,
            } by {
                assert(self.store.slots@[j] == integrate_slot_spec(
                    s0[j],
                    unique_cat(s0, Category::Player) == Some(j),
                    old(self).config,
                    *intent,
                    dt as int,
                ));
                assert(match s0[j].occupant {
                    Some(e) => entity_wf(e),
                    None => true,
                });
                crate::math::lemma_scale_to_length_bounds(
                    intent.dir_spec(),
                    old(self).config.player.speed as int,
                );
            }
        }
    }
}

/// Mark the slot at `i` for deferred removal, leaving its occupant in
/// place for the rest of the tick.
pub open spec fn doom_slot(s: Seq<Slot>, i: int) -> Seq<Slot> {
    s.update(i, Slot { doomed: true, ..s[i] })
}

/// The hit test the resolver uses: collision radii, not visual radii.
pub open spec fn entities_hit(a: Entity, b: Entity) -> bool {
    circles_intersect_spec(
        a.transform.pos@,
        a.collision_radius as int,
        b.transform.pos@,
        b.collision_radius as int,
    )
}

/// Whether the enemy in slot `i` intersects the player in slot `pi`.
pub open spec fn enemy_hits_player(s: Seq<Slot>, i: int, pi: int) -> bool {
    match s[i].occupant {
        Some(e) => match s[pi].occupant {
            Some(p) => entities_hit(e, p),
            None => false,
        },
        None => false,
    }
}

/// The first slot holding a bullet that intersects `e`, scanning from
/// `j`. A bullet already marked for removal still counts: removal only
/// happens at the end of the tick.
pub open spec fn first_hit_bullet_from(s: Seq<Slot>, e: Entity, j: int) -> Option<int>
    decreases s.len() - j,
{
    if j < 0 || j >= s.len() {
        None
    } else {
        match s[j].occupant {
            Some(b) => if b.category == Category::Bullet && entities_hit(e, b) {
                Some(j)
            } else {
                first_hit_bullet_from(s, e, j + 1)
            },
            None => first_hit_bullet_from(s, e, j + 1),
        }
    }
}

/// A found first-bullet index is in range and holds a bullet hitting
/// `e`.
pub proof fn lemma_first_hit_bullet_props(s: Seq<Slot>, e: Entity, j: int)
    ensures
        match first_hit_bullet_from(s, e, j) {
            Some(bi) => j <= bi < s.len() && match s[bi].occupant {
                Some(b) => b.category == Category::Bullet && entities_hit(e, b),
                None => false,
            },
            None => true,
        },
    decreases s.len() - j,
{
    if 0 <= j < s.len() {
        lemma_first_hit_bullet_props(s, e, j + 1);
    }
}

/// The store after the enemy in slot `i` has resolved against the
/// bullets: the enemy and the first bullet that hits it are both marked,
/// or nothing changes.
pub open spec fn collide_enemy_bullets(s: Seq<Slot>, e: Entity, i: int) -> Seq<Slot> {
    match first_hit_bullet_from(s, e, 0) {
        Some(bi) => doom_slot(doom_slot(s, i), bi),
        None => s,
    }
}

/// The collision resolver from enemy slot `i` on. `p` is the single
/// player found before the scan began. An enemy that intersects the
/// player marks the player, spawns a fresh one at the arena centre and
/// ends the whole pass (first collision wins); otherwise the enemy
/// resolves against the first bullet that hits it and the scan moves on.
pub open spec fn collide_from(s: Seq<Slot>, p: Option<int>, config: SimConfig, i: int) -> Seq<
    Slot,
>
    decreases s.len() - i,
    via collide_from_decreases
{
    if i < 0 || i >= s.len() {
        s
    } else {
        match s[i].occupant {
            Some(e) => if e.category == Category::Enemy {
                match p {
                    Some(pi) => if 0 <= pi < s.len() && enemy_hits_player(s, i, pi) {
                        spawn_slot_spec(doom_slot(s, pi), player_entity_spec(config))
                    } else {
                        collide_from(collide_enemy_bullets(s, e, i), p, config, i + 1)
                    },
                    None => collide_from(collide_enemy_bullets(s, e, i), p, config, i + 1),
                }
            } else {
                collide_from(s, p, config, i + 1)
            },
            None => collide_from(s, p, config, i + 1),
        }
    }
}

#[via_fn]
proof fn collide_from_decreases(s: Seq<Slot>, p: Option<int>, config: SimConfig, i: int) {
    if 0 <= i < s.len() {
        match s[i].occupant {
            Some(e) => {
                lemma_first_hit_bullet_props(s, e, 0);
                match first_hit_bullet_from(s, e, 0) {
                    Some(bi) => {
                        assert(doom_slot(s, i).len() == s.len());
                        assert(doom_slot(doom_slot(s, i), bi).len() == s.len());
                        assert(collide_enemy_bullets(s, e, i).len() == s.len());
                    },
                    None => {
                        assert(collide_enemy_bullets(s, e, i) == s);
                    },
                }
            },
            None => {},
        }
    }
}

impl World {
    /// The circle-circle collision resolver. Enemies are the outer loop:
    /// each enemy first tests the single player (a hit destroys the
    /// player, respawns it at the arena centre and ends the pass), then
    /// its first intersecting bullet (a hit destroys enemy and bullet).
    /// Destruction is deferred: entities are only marked here.
    pub fn collide_phase(&mut self)
        requires
            old(self).config.wf(),
            store_mid(old(self).store.slots@),
            old(self).store.slots@.len() + 1 < usize::MAX,
        ensures
            final(self).config == old(self).config,
            final(self).enemy_timer == old(self).enemy_timer,
            final(self).store.slots@ == collide_from(
                old(self).store.slots@,
                unique_cat(old(self).store.slots@, Category::Player),
                old(self).config,
                0,
            ),
            store_mid(final(self).store.slots@),
            old(self).store.slots@.len() <= final(self).store.slots@.len() <= old(
                self,
            ).store.slots@.len() + 1,
    {
        let ghost s1 = self.store.slots@;
        let pidx = self.store.find_unique(Category::Player);
        let ghost p = unique_cat(s1, Category::Player);
        proof {
            crate::store::lemma_first_cat_from_props(s1, Category::Player, 0);
        }
        let n = self.store.slots.len();
        let mut i: usize = 0;
        while i < n
            invariant_except_break
                0 <= i <= n,
                n == self.store.slots@.len() == s1.len(),
                n + 1 < usize::MAX,
                self.config == old(self).config,
                self.enemy_timer == old(self).enemy_timer,
                self.config.wf(),
                store_mid(self.store.slots@),
                forall|j: int| 0 <= j < n ==> (#[trigger] self.store.slots@[j]).occupant == s1[j].occupant,
                match pidx {
                    Some(pi) => p == Some(pi as int) && pi < n,
                    None => p is None,
                },
                collide_from(self.store.slots@, p, old(self).config, i as int) == collide_from(
                    s1,
                    p,
                    old(self).config,
                    0,
                ),
            ensures
                self.config == old(self).config,
                self.enemy_timer == old(self).enemy_timer,
                self.store.slots@ == collide_from(s1, p, old(self).config, 0),
                store_mid(self.store.slots@),
                s1.len() <= self.store.slots@.len() <= s1.len() + 1,
            decreases n - i,
        {
            let ghost s_iter = self.store.slots@;
            let slot = self.store.slots[i];
            if let Some(e) = slot.occupant {
                if e.category == Category::Enemy {
                    proof {
                        assert(match s_iter[i as int].occupant {
                            Some(x) => entity_mid(x),
                            None => true,
                        });
                    }
                    if let Some(pi) = pidx {
                        let pslot = self.store.slots[pi];
                        proof {
                            assert(match s_iter[pi as int].occupant {
                                Some(x) => entity_mid(x),
                                None => true,
                            });
                        }
                        if let Some(pe) = pslot.occupant {
                            if circles_intersect(
                                e.transform.pos,
                                e.collision_radius,
                                pe.transform.pos,
                                pe.collision_radius,
                            ) {
                                self.store.mark_doomed(pi);
                                let newp = player_entity(&self.config);
                                proof {
                                    assert(entity_mid(newp));
                                    assert(store_mid(doom_slot(s_iter, pi as int)));
                                    crate::store::lemma_first_free_from_props(
                                        doom_slot(s_iter, pi as int),
                                        0,
                                    );
                                }
                                self.store.spawn(newp);
                                proof {
                                    assert(self.store.slots@ == spawn_slot_spec(
                                        doom_slot(s_iter, pi as int),
                                        player_entity_spec(old(self).config),
                                    ));
                                    assert(collide_from(s_iter, p, old(self).config, i as int)
                                        == self.store.slots@);
                                }
                                break;
                            }
                        }
                    }
                    // No player hit: resolve this enemy against the first
                    // bullet that intersects it.
                    let mut bullet_hit: Option<usize> = None;
                    let mut j: usize = 0;
                    proof {
                        assert(entity_mid(e));
                    }
                    while j < n
                        invariant_except_break
                            bullet_hit is None,
                            first_hit_bullet_from(s_iter, e, 0) == first_hit_bullet_from(
                                s_iter,
                                e,
                                j as int,
                            ),
                        invariant
                            0 <= j <= n,
                            n == self.store.slots@.len(),
                            self.store.slots@ == s_iter,
                            store_mid(s_iter),
                            entity_mid(e),
                        ensures
                            self.store.slots@ == s_iter,
                            match bullet_hit {
                                Some(bj) => first_hit_bullet_from(s_iter, e, 0) == Some(
                                    bj as int,
                                ) && bj < n,
                                None => first_hit_bullet_from(s_iter, e, 0) is None,
                            },
                        decreases n - j,
                    {
                        let bslot = self.store.slots[j];
                        proof {
                            assert(match s_iter[j as int].occupant {
                                Some(x) => entity_mid(x),
                                None => true,
                            });
                        }
                        if let Some(b) = bslot.occupant {
                            if b.category == Category::Bullet && circles_intersect(
                                e.transform.pos,
                                e.collision_radius,
                                b.transform.pos,
                                b.collision_radius,
                            ) {
                                bullet_hit = Some(j);
                                break;
                            }
                        }
                        j = j + 1;
                    }
                    if let Some(bj) = bullet_hit {
                        self.store.mark_doomed(i);
                        self.store.mark_doomed(bj);
                        proof {
                            assert(self.store.slots@ == collide_enemy_bullets(
                                s_iter,
                                e,
                                i as int,
                            ));
                        }
                    }
                }
            }
            proof {
                assert(collide_from(self.store.slots@, p, old(self).config, i + 1)
                    == collide_from(s_iter, p, old(self).config, i as int));
            }
            i = i + 1;
        }
    }
}

/// One slot after the lifespan system: a carried budget drops by `dt`,
/// and a budget now negative marks the slot for removal.
pub open spec fn lifespan_slot_spec(slot: Slot, dt: int) -> Slot {
    match slot.occupant {
        Some(e) => match e.lifespan {
            Some(ls) => Slot {
                occupant: Some(
                    Entity {
                        lifespan: Some(
                            CLifespan { remaining: (ls.remaining - dt) as i64, total: ls.total },
                        ),
                        ..e
                    },
                ),
                doomed: slot.doomed || ls.remaining - dt < 0,
                generation: slot.generation,
            },
            None => slot,
        },
        None => slot,
    }
}

/// The store after the lifespan system.
pub open spec fn lifespan_phase_store(s: Seq<Slot>, dt: int) -> Seq<Slot> {
    Seq::new(s.len(), |i: int| lifespan_slot_spec(s[i], dt))
}

/// Live entities whose lifespans allow the fade fraction to be derived:
/// what the renderer needs of the swept store.
pub open spec fn entity_render_ok(e: Entity) -> bool {
    match e.lifespan {
        Some(ls) => ls.wf() && 0 <= ls.remaining,
        None => true,
    }
}

pub open spec fn store_render_ok(s: Seq<Slot>) -> bool {
    forall|i: int|
        0 <= i < s.len() ==> match (#[trigger] s[i]).occupant {
            Some(e) => entity_render_ok(e),
            None => true,
        }
}

/// What the renderer reads of one entity: position, visual radius,
/// colour, vertex count, orientation and the fade fraction against
/// [`COLOR_FULL`].
#[derive(Clone, Copy, Debug, PartialEq, Eq, Structural)]
pub struct RenderableEntity {
    pub position: Vec2,
    pub radius: i64,
    pub color: Color,
    pub vertices: u32,
    pub orientation: i64,
    pub alpha: i64,
}

pub open spec fn renderable_of(e: Entity) -> RenderableEntity {
    RenderableEntity {
        position: e.transform.pos,
        radius: e.shape.radius,
        color: e.shape.color,
        vertices: e.shape.vertices,
        orientation: e.transform.angle,
        alpha: match e.lifespan {
            Some(ls) => crate::math::div_to_zero(
                ls.remaining * COLOR_FULL as int,
                ls.total as int,
            ) as i64,
            None => COLOR_FULL,
        },
    }
}

/// The drawable entities of the store, in slot order.
pub open spec fn renderables_spec(s: Seq<Slot>) -> Seq<RenderableEntity>
    decreases s.len(),
{
    if s.len() == 0 {
        Seq::empty()
    } else {
        let rest = renderables_spec(s.drop_last());
        match s.last().occupant {
            Some(e) => rest.push(renderable_of(e)),
            None => rest,
        }
    }
}

/// One whole simulation step and the timer it leaves behind: spawn,
/// integrate, resolve collisions, age lifespans, then sweep the deferred
/// removals.
pub open spec fn tick_spec(
    s: Seq<Slot>,
    timer: int,
    config: SimConfig,
    dt: int,
    intent: PlayerIntent,
    draws: EnemyDraws,
) -> (Seq<Slot>, int) {
    let fired = timer + dt >= config.enemy.spawn_interval;
    let t1: int = if fired {
        0
    } else {
        timer + dt
    };
    let s1 = spawn_phase_store(s, config, intent, fired, draws);
    let s2 = integrate_phase_store(s1, config, intent, dt);
    let s3 = collide_from(s2, unique_cat(s2, Category::Player), config, 0);
    let s4 = lifespan_phase_store(s3, dt);
    let s5 = s4.map_values(|slot: Slot| sweep_slot_spec(slot));
    (s5, t1)
}

impl World {
    /// The lifespan system: each carried budget drops by exactly `dt`,
    /// and entities whose budget went negative are marked for removal.
    pub fn lifespan_phase(&mut self, dt: i64)
        requires
            store_mid(old(self).store.slots@),
            0 <= dt <= COORD_LIMIT,
        ensures
            final(self).config == old(self).config,
            final(self).enemy_timer == old(self).enemy_timer,
            final(self).store.slots@ == lifespan_phase_store(old(self).store.slots@, dt as int),
    {
        let ghost s0 = self.store.slots@;
        let n = self.store.slots.len();
        let mut i: usize = 0;
        while i < n
            invariant
                0 <= i <= n,
                n == self.store.slots@.len() == s0.len(),
                self.config == old(self).config,
                self.enemy_timer == old(self).enemy_timer,
                store_mid(s0),
                0 <= dt <= COORD_LIMIT,
                forall|j: int| i <= j < n ==> self.store.slots@[j] == s0[j],
                forall|j: int|
                    0 <= j < i ==> self.store.slots@[j] == lifespan_slot_spec(s0[j], dt as int),
            decreases n - i,
        {
            let slot = self.store.slots[i];
            if let Some(e) = slot.occupant {
                if let Some(ls) = e.lifespan {
                    proof {
                        assert(match s0[i as int].occupant {
                            Some(x) => entity_mid(x),
                            None => true,
                        });
                    }
                    let mut aged = ls;
                    let expired = aged.age(dt);
                    self.store.slots.set(
                        i,
                        Slot {
                            occupant: Some(Entity { lifespan: Some(aged), ..e }),
                            doomed: slot.doomed || expired,
                            generation: slot.generation,
                        },
                    );
                }
            }
            i = i + 1;
        }
        proof {
            assert(self.store.slots@ =~= lifespan_phase_store(s0, dt as int));
        }
    }

    /// The drawable entities of the current store, in slot order.
    pub fn render_list(&self) -> (drawables: Vec<RenderableEntity>)
        requires
            store_render_ok(self.store.slots@),
        ensures
            drawables@ == renderables_spec(self.store.slots@),
    {
        let n = self.slots_len();
        let mut out: Vec<RenderableEntity> = Vec::new();
        let mut i: usize = 0;
        while i < n
            invariant
                0 <= i <= n,
                n == self.store.slots@.len(),
                store_render_ok(self.store.slots@),
                out@ == renderables_spec(self.store.slots@.take(i as int)),
            decreases n - i,
        {
            let slot = self.store.slots[i];
            proof {
                assert(match self.store.slots@[i as int].occupant {
                    Some(x) => entity_render_ok(x),
                    None => true,
                });
                assert(self.store.slots@.take(i + 1).drop_last() =~= self.store.slots@.take(
                    i as int,
                ));
            }
            if let Some(e) = slot.occupant {
                let alpha = match e.lifespan {
                    Some(ls) => ls.alpha_scaled(COLOR_FULL),
                    None => COLOR_FULL,
                };
                out.push(
                    RenderableEntity {
                        position: e.transform.pos,
                        radius: e.shape.radius,
                        color: e.shape.color,
                        vertices: e.shape.vertices,
                        orientation: e.transform.angle,
                        alpha,
                    },
                );
            }
            i = i + 1;
        }
        proof {
            assert(self.store.slots@.take(n as int) =~= self.store.slots@);
        }
        out
    }

    /// How many slots the store holds (live or free).
    pub fn slots_len(&self) -> (n: usize)
        ensures
            n == self.store.slots@.len(),
    {
        self.store.slots.len()
    }

    /// Advance the simulation by one frame: spawn (bullet of a fire
    /// request, then a timed enemy), integrate every entity, resolve
    /// collisions, age lifespans, apply the deferred removals, and hand
    /// back the drawable state. The systems run in this fixed order, one
    /// tick per rendered frame.
    pub fn tick(&mut self, dt: i64, intent: &PlayerIntent, draws: &EnemyDraws) -> (drawables:
        Vec<RenderableEntity>)
        requires
            old(self).wf(),
            0 <= dt <= COORD_LIMIT,
        ensures
            final(self).config == old(self).config,
            final(self).store.slots@ == tick_spec(
                old(self).store.slots@,
                old(self).enemy_timer.elapsed as int,
                old(self).config,
                dt as int,
                *intent,
                *draws,
            ).0,
            final(self).enemy_timer.elapsed as int == tick_spec(
                old(self).store.slots@,
                old(self).enemy_timer.elapsed as int,
                old(self).config,
                dt as int,
                *intent,
                *draws,
            ).1,
            drawables@ == renderables_spec(final(self).store.slots@),
            0 <= final(self).enemy_timer.elapsed <= final(self).config.enemy.spawn_interval,
    {
        self.spawn_phase(dt, intent, draws);
        self.integrate_phase(dt, intent);
        self.collide_phase();
        let ghost s3 = self.store.slots@;
        self.lifespan_phase(dt);
        let ghost s4 = self.store.slots@;
        self.store.sweep();
        proof {
            assert forall|i: int| 0 <= i < self.store.slots@.len() implies match (
            #[trigger] self.store.slots@[i]).occupant {
                Some(e) => entity_render_ok(e),
                None => true,
            } by {
                assert(self.store.slots@[i] == sweep_slot_spec(s4[i]));
                assert(s4[i] == lifespan_slot_spec(s3[i], dt as int));
                assert(match s3[i].occupant {
                    Some(x) => entity_mid(x),
                    None => true,
                });
            }
        }
        self.render_list()
    }
}

/// Runtime test of [`entity_wf`], for callers outside the proof world.
pub fn check_entity(e: &Entity) -> (b: bool)
    ensures
        b == entity_wf(*e),
{
    e.transform.pos.within(POS_LIMIT) && e.transform.prev_pos.within(POS_LIMIT)
        && e.transform.vel.within(COORD_LIMIT) && -POS_LIMIT <= e.transform.angle
        && e.transform.angle <= POS_LIMIT && e.shape.radius >= 0 && e.shape.radius <= COORD_LIMIT
        && e.collision_radius >= 0 && e.collision_radius <= COORD_LIMIT && match e.lifespan {
        Some(ls) => ls.total > 0 && ls.total <= COORD_LIMIT && ls.remaining <= ls.total
            && ls.remaining >= 0,
        None => true,
    }
}

impl World {
    /// Runtime test of the tick-boundary invariant [`World::wf`]: a
    /// caller that cannot carry proofs checks this before each `tick`.
    pub fn check_wf(&self) -> (b: bool)
        ensures
            b == self.wf(),
    {
        let c = &self.config;
        let config_ok = c.window.width >= 0 && c.window.width <= COORD_LIMIT && c.window.height
            >= 0 && c.window.height <= COORD_LIMIT && c.player.shape_radius >= 0
            && c.player.shape_radius <= COORD_LIMIT && c.player.collision_radius >= 0
            && c.player.collision_radius <= COORD_LIMIT && c.player.speed >= 0 && c.player.speed
            <= COORD_LIMIT && c.enemy.shape_radius >= 0 && c.enemy.shape_radius <= COORD_LIMIT
            && c.enemy.collision_radius >= 0 && c.enemy.collision_radius <= COORD_LIMIT
            && c.enemy.min_speed >= -COORD_LIMIT && c.enemy.min_speed <= c.enemy.max_speed
            && c.enemy.max_speed <= COORD_LIMIT && c.enemy.min_vertices <= c.enemy.max_vertices
            && c.enemy.max_vertices - c.enemy.min_vertices < 0xffff_ffffu32
            && c.enemy.spawn_interval >= 0 && c.enemy.spawn_interval <= COORD_LIMIT
            && c.bullet.shape_radius >= 0 && c.bullet.shape_radius <= COORD_LIMIT
            && c.bullet.collision_radius >= 0 && c.bullet.collision_radius <= COORD_LIMIT
            && c.bullet.speed >= 0 && c.bullet.speed <= COORD_LIMIT && c.bullet.lifespan > 0
            && c.bullet.lifespan <= COORD_LIMIT && 2 * c.enemy.shape_radius <= c.window.width && 2
            * c.enemy.shape_radius <= c.window.height;
        if !config_ok {
            return false;
        }
        if !(self.enemy_timer.elapsed >= 0 && self.enemy_timer.elapsed
            <= self.config.enemy.spawn_interval) {
            return false;
        }
        let n = self.store.slots.len();
        if !(n < usize::MAX - 3) {
            return false;
        }
        let mut i: usize = 0;
        while i < n
            invariant
                0 <= i <= n,
                n == self.store.slots@.len(),
                forall|j: int|
                    0 <= j < i ==> match (#[trigger] self.store.slots@[j]).occupant {
                        Some(e) => entity_wf(e),
                        None => true,
                    },
            decreases n - i,
        {
            let slot = self.store.slots[i];
            if let Some(e) = slot.occupant {
                if !check_entity(&e) {
                    return false;
                }
            }
            i = i + 1;
        }
        true
    }
}

/// What the shot is fired from and at: the single player's position and
/// the target, present only when both are representable and the player
/// is unique.
pub open spec fn fire_data(s: Seq<Slot>, intent: PlayerIntent) -> Option<(Vec2, Vec2)> {
    match intent.fire_at {
        Some(target) => match unique_cat(s, Category::Player) {
            Some(pi) => match s[pi].occupant {
                Some(p) => if p.transform.pos.bounded(COORD_LIMIT as int) && target.bounded(
                    COORD_LIMIT as int,
                ) {
                    Some((p.transform.pos, target))
                } else {
                    None
                },
                None => None,
            },
            None => None,
        },
        None => None,
    }
}

/// The store after the spawner has run: first the bullet of a fire
/// request, then — when the timer fired — one randomized enemy.
pub open spec fn spawn_phase_store(
    s: Seq<Slot>,
    config: SimConfig,
    intent: PlayerIntent,
    fired: bool,
    draws: EnemyDraws,
) -> Seq<Slot> {
    let s1 = match fire_data(s, intent) {
        Some(pt) => spawn_slot_spec(s, bullet_entity_spec(config, pt.0, pt.1)),
        None => s,
    };
    if fired {
        spawn_slot_spec(s1, enemy_entity_spec(config, draws))
    } else {
        s1
    }
}

} // verus!
