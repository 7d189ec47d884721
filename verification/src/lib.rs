//! Core simulation of a 2D "protect the earth" arcade shooter.
//!
//! A player ship fends off waves of randomly spawned enemy ships while a
//! starfield scrolls past. The crate holds the gameplay rules themselves:
//! the entity catalog, the spawning policy, movement integration, weapon
//! cooldowns and projectile emission, collision and damage resolution,
//! out-of-bounds despawning, and the game state machine. Rendering, asset
//! loading, input reading and frame scheduling are left to the embedding
//! program.
//!
//! All quantities are integers so that every rule is exact:
//! - positions, sizes, offsets and distances are in *milli-units*
//!   (one thousandth of a world unit), stored as `i64`;
//! - durations are in microseconds, stored as `u64`;
//! - a speed is the distance in milli-units covered per tick at the
//!   reference rate of 40 ticks per second.

pub mod geom;
pub mod seq_util;
pub mod timer;
pub mod rng;
pub mod game;
pub mod sprites;
pub mod shooting;
pub mod ships;
pub mod player_control;
pub mod spawn;
pub mod enemy_spawning;
pub mod backdrop;
pub mod effects;
pub mod combat;
pub mod world;
