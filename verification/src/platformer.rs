//! The platformer slice of the core: axis-aligned bounding boxes, a tile
//! grid laid out from configuration, and directional tile collision that
//! uses previous-frame overlap to infer the collision side.

use vstd::prelude::*;
use crate::components::{Color, PlayerIntent, COLOR_FULL};
use crate::geometry::{aabb_overlap, aabb_overlap_spec};
use crate::kinematics::CTransform;
use crate::math::{scale_to_length, scale_to_length_spec, Vec2, V2};
use crate::{COORD_LIMIT, POS_LIMIT};

verus! {

/// Width and height of one grid cell in world units.
pub const TILE_SIZE: i64 = 64;

/// Most tiles a level may carry: keeps the accumulated pushes of
/// sequential tile resolution within [`POS_LIMIT`].
pub const MAX_TILES: usize = 0x8_0000;

/// An axis-aligned collision box: the full size, the derived half size
/// and a debug colour.
#[derive(Clone, Copy, Debug, PartialEq, Eq, Structural)]
pub struct CBoundingBox {
    pub size: Vec2,
    pub half_size: Vec2,
    pub color: Color,
}

impl CBoundingBox {
    /// The half size is exactly half the stored full size, and the size
    /// is non-negative and within the simulation limits.
    pub open spec fn wf(self) -> bool {
        0 <= self.size.x <= COORD_LIMIT && 0 <= self.size.y <= COORD_LIMIT
            && self.half_size.x == self.size.x / 2 && self.half_size.y == self.size.y / 2
    }

    /// A box with an invisible white debug colour.
    pub fn new(size: Vec2) -> (bb: CBoundingBox)
        requires
            0 <= size.x <= COORD_LIMIT,
            0 <= size.y <= COORD_LIMIT,
        ensures
            bb.size == size,
            bb.wf(),
            bb.color == (Color { red: COLOR_FULL, green: COLOR_FULL, blue: COLOR_FULL, alpha: 0 }),
    {
        CBoundingBox {
            size,
            half_size: Vec2 { x: size.x / 2, y: size.y / 2 },
            color: Color { red: COLOR_FULL, green: COLOR_FULL, blue: COLOR_FULL, alpha: 0 },
        }
    }

    /// A box with an explicit debug colour.
    pub fn new_c(size: Vec2, color: Color) -> (bb: CBoundingBox)
        requires
            0 <= size.x <= COORD_LIMIT,
            0 <= size.y <= COORD_LIMIT,
        ensures
            bb.size == size,
            bb.wf(),
            bb.color == color,
    {
        CBoundingBox { size, half_size: Vec2 { x: size.x / 2, y: size.y / 2 }, color }
    }
}

/// A solid or decorative level cell: its box and its static transform.
#[derive(Clone, Copy, Debug, PartialEq, Eq, Structural)]
pub struct Tile {
    pub bb: CBoundingBox,
    pub tf: CTransform,
}

/// One cell of the level description: whether it is solid, a visual kind
/// tag, and its grid coordinates.
#[derive(Clone, Copy, Debug, PartialEq, Eq, Structural)]
pub struct TileSpec {
    pub solid: u32,
    pub kind: u32,
    pub grid_x: i64,
    pub grid_y: i64,
}

/// The level layout loaded by the configuration collaborator.
#[derive(Clone, Debug)]
pub struct LevelConfig {
    pub tiles: Vec<TileSpec>,
}

/// Platformer player parameters loaded by the configuration collaborator.
#[derive(Clone, Copy, Debug)]
pub struct PlayerConfig {
    pub starting_position: Vec2,
    pub bounding_box: Vec2,
    pub walk_speed: i64,
    pub color: Color,
}

impl PlayerConfig {
    pub open spec fn wf(self) -> bool {
        -0x10_0000 <= self.starting_position.x <= 0x10_0000 && -0x10_0000
            <= self.starting_position.y <= 0x10_0000 && 0 <= self.bounding_box.x <= COORD_LIMIT
            && 0 <= self.bounding_box.y <= COORD_LIMIT && 0 <= self.walk_speed <= COORD_LIMIT
    }
}

/// The centre of a grid cell in world units.
pub fn grid_to_world(grid_x: i64, grid_y: i64) -> (p: Vec2)
    requires
        -0x10_0000 <= grid_x <= 0x10_0000,
        -0x10_0000 <= grid_y <= 0x10_0000,
    ensures
        p.x == grid_x * TILE_SIZE + TILE_SIZE / 2,
        p.y == grid_y * TILE_SIZE + TILE_SIZE / 2,
{
    Vec2 { x: grid_x * TILE_SIZE + TILE_SIZE / 2, y: grid_y * TILE_SIZE + TILE_SIZE / 2 }
}

/// The exact tile built for a level cell: a full grid cell, coloured
/// blue, standing still at the cell's centre.
pub open spec fn tile_of_spec(ts: TileSpec) -> Tile {
    Tile {
        bb: CBoundingBox {
            size: Vec2 { x: TILE_SIZE, y: TILE_SIZE },
            half_size: Vec2 { x: (TILE_SIZE / 2) as i64, y: (TILE_SIZE / 2) as i64 },
            color: Color { red: 0, green: 0, blue: COLOR_FULL, alpha: COLOR_FULL },
        },
        tf: CTransform {
            pos: Vec2 {
                x: (ts.grid_x * TILE_SIZE + TILE_SIZE / 2) as i64,
                y: (ts.grid_y * TILE_SIZE + TILE_SIZE / 2) as i64,
            },
            prev_pos: Vec2 {
                x: (ts.grid_x * TILE_SIZE + TILE_SIZE / 2) as i64,
                y: (ts.grid_y * TILE_SIZE + TILE_SIZE / 2) as i64,
            },
            vel: Vec2 { x: 0, y: 0 },
            angle: 0,
        },
    }
}

/// The cells of `specs` with the given solidity, in order, built as
/// tiles.
pub open spec fn tiles_with_solidity(specs: Seq<TileSpec>, solid: bool) -> Seq<Tile>
    decreases specs.len(),
{
    if specs.len() == 0 {
        Seq::empty()
    } else {
        let rest = tiles_with_solidity(specs.drop_last(), solid);
        if (specs.last().solid == 1) == solid {
            rest.push(tile_of_spec(specs.last()))
        } else {
            rest
        }
    }
}

pub open spec fn level_wf(level: LevelConfig) -> bool {
    level.tiles.len() <= MAX_TILES && forall|i: int|
        0 <= i < level.tiles@.len() ==> (-0x10_0000 <= (#[trigger] level.tiles@[i]).grid_x
            <= 0x10_0000 && -0x10_0000 <= level.tiles@[i].grid_y <= 0x10_0000)
}

/// Lay the level out in world space: the cells marked solid become the
/// collision tiles, every other cell becomes a decoration that is only
/// drawn.
pub fn build_level(level: &LevelConfig) -> (r: (Vec<Tile>, Vec<Tile>))
    requires
        level_wf(*level),
    ensures
        r.0@ == tiles_with_solidity(level.tiles@, true),
        r.1@ == tiles_with_solidity(level.tiles@, false),
{
    let mut solid_tiles: Vec<Tile> = Vec::new();
    let mut decorations: Vec<Tile> = Vec::new();
    let n = level.tiles.len();
    let mut i: usize = 0;
    while i < n
        invariant
            0 <= i <= n,
            n == level.tiles@.len(),
            level_wf(*level),
            solid_tiles@ == tiles_with_solidity(level.tiles@.take(i as int), true),
            decorations@ == tiles_with_solidity(level.tiles@.take(i as int), false),
        decreases n - i,
    {
        let ts = level.tiles[i];
        let pos = grid_to_world(ts.grid_x, ts.grid_y);
        let bb = CBoundingBox::new_c(
            Vec2 { x: TILE_SIZE, y: TILE_SIZE },
            Color { red: 0, green: 0, blue: COLOR_FULL, alpha: COLOR_FULL },
        );
        let tile = Tile { bb, tf: CTransform::new(pos) };
        proof {
            assert(tile == tile_of_spec(level.tiles@[i as int]));
            assert(level.tiles@.take(i + 1).drop_last() =~= level.tiles@.take(i as int));
            assert(level.tiles@.take(i + 1).last() == level.tiles@[i as int]);
        }
        if ts.solid == 1 {
            solid_tiles.push(tile);
        } else {
            decorations.push(tile);
        }
        i = i + 1;
    }
    proof {
        assert(level.tiles@.take(n as int) =~= level.tiles@);
    }
    (solid_tiles, decorations)
}

/// Where the player box lands after one directional push out of a tile.
///
/// A positive previous-frame horizontal overlap means the boxes were
/// already aligned horizontally, so the hit is vertical: push along Y,
/// up or down by the current Y overlap depending on which side the
/// player stands. A positive previous-frame vertical overlap means a
/// horizontal hit, resolved the same way along X. When neither axis was
/// aligned last frame (a corner approach), the current relative quadrant
/// picks a single push axis — a coarse fallback that can pick the wrong
/// direction on a truly diagonal approach, kept as specified.
pub open spec fn resolve_push_spec(overlap: V2, prev_overlap: V2, p_pos: V2, t_pos: V2) -> V2 {
    if prev_overlap.x > 0 {
        if p_pos.y > t_pos.y {
            V2 { x: p_pos.x, y: p_pos.y + overlap.y }
        } else {
            V2 { x: p_pos.x, y: p_pos.y - overlap.y }
        }
    } else if prev_overlap.y > 0 {
        if p_pos.x > t_pos.x {
            V2 { x: p_pos.x + overlap.x, y: p_pos.y }
        } else {
            V2 { x: p_pos.x - overlap.x, y: p_pos.y }
        }
    } else {
        if p_pos.y > t_pos.y {
            V2 { x: p_pos.x, y: p_pos.y + overlap.y }
        } else if p_pos.y < t_pos.y && p_pos.x < t_pos.x {
            V2 { x: p_pos.x - overlap.x, y: p_pos.y }
        } else if p_pos.y < t_pos.y && p_pos.x > t_pos.x {
            V2 { x: p_pos.x + overlap.x, y: p_pos.y }
        } else {
            p_pos
        }
    }
}

/// Push the player position out of a tile along one axis, choosing the
/// axis from the previous-frame overlap (see [`resolve_push_spec`]).
pub fn resolve_collision_by_moving(
    overlap: Vec2,
    prev_overlap: Vec2,
    p_pos: &mut Vec2,
    t_pos: Vec2,
)
    requires
        old(p_pos).bounded(POS_LIMIT as int),
        overlap.bounded(2 * COORD_LIMIT as int),
    ensures
        final(p_pos)@ == resolve_push_spec(overlap@, prev_overlap@, old(p_pos)@, t_pos@),
{
    if prev_overlap.x > 0 {
        if p_pos.y > t_pos.y {
            p_pos.y = p_pos.y + overlap.y;
        } else {
            p_pos.y = p_pos.y - overlap.y;
        }
    } else if prev_overlap.y > 0 {
        if p_pos.x > t_pos.x {
            p_pos.x = p_pos.x + overlap.x;
        } else {
            p_pos.x = p_pos.x - overlap.x;
        }
    } else {
        if p_pos.y > t_pos.y {
            p_pos.y = p_pos.y + overlap.y;
        } else if p_pos.y < t_pos.y && p_pos.x < t_pos.x {
            p_pos.x = p_pos.x - overlap.x;
        } else if p_pos.y < t_pos.y && p_pos.x > t_pos.x {
            p_pos.x = p_pos.x + overlap.x;
        }
    }
}

/// The player position after testing one tile: pushed out when the boxes
/// intersect now, untouched otherwise.
pub open spec fn resolve_tile_step(p_size: V2, p_prev: V2, p_pos: V2, tile: Tile) -> V2 {
    let ov = aabb_overlap_spec(p_size, p_pos, tile.bb.size@, tile.tf.pos@);
    if ov.x > 0 && ov.y > 0 {
        let pov = aabb_overlap_spec(p_size, p_prev, tile.bb.size@, tile.tf.prev_pos@);
        resolve_push_spec(ov, pov, p_pos, tile.tf.pos@)
    } else {
        p_pos
    }
}

/// The player position after the tiles from index `i` on have been
/// resolved in order, each against the position the previous tile left
/// behind.
pub open spec fn resolve_tiles_from(
    p_size: V2,
    p_prev: V2,
    p_pos: V2,
    tiles: Seq<Tile>,
    i: int,
) -> V2
    decreases tiles.len() - i,
{
    if i < 0 || i >= tiles.len() {
        p_pos
    } else {
        resolve_tiles_from(
            p_size,
            p_prev,
            resolve_tile_step(p_size, p_prev, p_pos, tiles[i]),
            tiles,
            i + 1,
        )
    }
}

/// Resolve the player against every solid tile, sequentially: each tile
/// is tested against the position already corrected by the tiles before
/// it. Only the position changes; previous position and velocity stay.
pub fn resolve_tile_collisions(p_bb: &CBoundingBox, p_tf: &mut CTransform, tiles: &Vec<Tile>)
    requires
        p_bb.wf(),
        old(p_tf).wf(),
        old(p_tf).pos.bounded(COORD_LIMIT as int),
        tiles@.len() <= MAX_TILES,
        forall|j: int| 0 <= j < tiles@.len() ==> (#[trigger] tiles@[j]).bb.wf(),
        forall|j: int|
            0 <= j < tiles@.len() ==> (#[trigger] tiles@[j]).tf.pos.bounded(POS_LIMIT as int)
                && tiles@[j].tf.prev_pos.bounded(POS_LIMIT as int),
    ensures
        final(p_tf).pos@ == resolve_tiles_from(
            p_bb.size@,
            old(p_tf).prev_pos@,
            old(p_tf).pos@,
            tiles@,
            0,
        ),
        final(p_tf).prev_pos == old(p_tf).prev_pos,
        final(p_tf).vel == old(p_tf).vel,
        final(p_tf).angle == old(p_tf).angle,
{
    let n = tiles.len();
    let mut i: usize = 0;
    while i < n
        invariant
            0 <= i <= n,
            n == tiles@.len(),
            p_bb.wf(),
            tiles@.len() <= MAX_TILES,
            forall|j: int| 0 <= j < tiles@.len() ==> (#[trigger] tiles@[j]).bb.wf(),
            forall|j: int|
                0 <= j < tiles@.len() ==> (#[trigger] tiles@[j]).tf.pos.bounded(POS_LIMIT as int)
                    && tiles@[j].tf.prev_pos.bounded(POS_LIMIT as int),
            p_tf.prev_pos == old(p_tf).prev_pos,
            p_tf.vel == old(p_tf).vel,
            p_tf.angle == old(p_tf).angle,
            p_tf.prev_pos.bounded(POS_LIMIT as int),
            p_tf.pos.bounded(COORD_LIMIT as int + i as int * COORD_LIMIT as int),
            resolve_tiles_from(p_bb.size@, old(p_tf).prev_pos@, p_tf.pos@, tiles@, i as int)
                == resolve_tiles_from(
                p_bb.size@,
                old(p_tf).prev_pos@,
                old(p_tf).pos@,
                tiles@,
                0,
            ),
        decreases n - i,
    {
        let tile = tiles[i];
        proof {
            assert(COORD_LIMIT as int + i as int * COORD_LIMIT as int <= COORD_LIMIT as int
                + MAX_TILES as int * COORD_LIMIT as int) by (nonlinear_arith)
                requires i as int <= MAX_TILES as int && COORD_LIMIT > 0
            ;
        }
        let overlap = aabb_overlap(p_bb.size, p_tf.pos, tile.bb.size, tile.tf.pos);
        if overlap.x > 0 && overlap.y > 0 {
            let prev_overlap = aabb_overlap(
                p_bb.size,
                p_tf.prev_pos,
                tile.bb.size,
                tile.tf.prev_pos,
            );
            let mut pos = p_tf.pos;
            resolve_collision_by_moving(overlap, prev_overlap, &mut pos, tile.tf.pos);
            p_tf.pos = pos;
            proof {
                assert((i as int + 1) * COORD_LIMIT as int == i as int * COORD_LIMIT as int
                    + COORD_LIMIT as int) by (nonlinear_arith);
            }
        }
        i = i + 1;
    }
}

/// One platformer movement frame: the velocity comes from the intent
/// direction scaled to the walk speed, the previous position is recorded,
/// and the position moves one velocity step. No bounds handling and no
/// spin: tiles, not arena edges, stop the platformer player.
pub fn platformer_player_step(p_tf: &mut CTransform, intent: &PlayerIntent, walk_speed: i64)
    requires
        old(p_tf).wf(),
        0 <= walk_speed <= COORD_LIMIT,
    ensures
        final(p_tf).vel@ == scale_to_length_spec(intent.dir_spec(), walk_speed as int),
        final(p_tf).prev_pos == old(p_tf).pos,
        final(p_tf).pos@.x == old(p_tf).pos@.x + final(p_tf).vel@.x,
        final(p_tf).pos@.y == old(p_tf).pos@.y + final(p_tf).vel@.y,
        final(p_tf).angle == old(p_tf).angle,
    {
        let d = intent.dir();
        let vel = scale_to_length(d, walk_speed);
        p_tf.vel = vel;
        p_tf.prev_pos = p_tf.pos;
        p_tf.pos = Vec2 { x: p_tf.pos.x + vel.x, y: p_tf.pos.y + vel.y };
    }

/// The platformer player's spawn transform: the configured grid column
/// centred, and the configured grid row raised by half the bounding box.
pub fn player_start_transform(config: &PlayerConfig) -> (tf: CTransform)
    requires
        config.wf(),
    ensures
        tf.pos.x == config.starting_position.x * TILE_SIZE + TILE_SIZE / 2,
        tf.pos.y == config.starting_position.y * TILE_SIZE + config.bounding_box.y / 2,
        tf.prev_pos == tf.pos,
        tf.vel == (Vec2 { x: 0, y: 0 }),
        tf.angle == 0,
{
    let x = config.starting_position.x * TILE_SIZE + TILE_SIZE / 2;
    let y = config.starting_position.y * TILE_SIZE + config.bounding_box.y / 2;
    CTransform::new(Vec2 { x, y })
}

} // verus!
