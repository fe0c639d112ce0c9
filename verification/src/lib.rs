//! A small real-time 2D simulation core: it advances moving entities each
//! frame, detects and resolves collisions between them, ages and removes
//! time-limited entities, and spawns new entities from data-driven
//! parameters.
//!
//! All quantities are fixed-point integers (`i64`); the unit scale is the
//! caller's choice. The surrounding engine (rendering, input polling, asset
//! loading, frame pacing) is an external collaborator: it hands the core
//! plain values and reads back the drawable state that `tick` returns.

pub mod arena;
pub mod components;
pub mod geometry;
pub mod kinematics;
pub mod math;
pub mod platformer;
pub mod spawn;
pub mod store;

use vstd::prelude::*;

verus! {

/// Largest magnitude the core accepts for a velocity, radius, size, time
/// step or colour channel. Keeping every scalar within this bound keeps
/// every sum and difference the simulation forms far away from `i64`
/// overflow.
pub const COORD_LIMIT: i64 = 0x100_0000_0000;

/// Largest magnitude the core accepts for a position or an orientation
/// angle. Positions drift (a bounce does not clamp, and sequential tile
/// pushes accumulate), so they get far more headroom than the per-frame
/// quantities bounded by [`COORD_LIMIT`].
pub const POS_LIMIT: i64 = 0x1000_0000_0000_0000;

} // verus!
