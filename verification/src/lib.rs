//! Enemy-behavior and combat-resolution engine for a side-view arcade
//! defense game: waves of hostile actors spawn at the map edges, advance
//! toward a fixed defender, and are defeated by player-fired projectiles;
//! defeated actors trigger area-damage explosions that can chain.
//!
//! The engine owns the time-driven spawn scheduler, the per-archetype
//! behavioral state machines that turn physics contact/overlap information
//! into movement commands, and the collision-driven combat pipeline
//! (projectile hit, health reduction, death, explosion spawn, secondary
//! damage). Rendering, audio, UI and the physics engine itself are external
//! collaborators: the engine consumes their query results as plain values
//! and issues commands back as plain values.
//!
//! All continuous quantities are held in fixed-point integers: lengths,
//! positions and velocities in thousandths of a world unit, durations in
//! milliseconds, and probabilities as fractions of [`units::PROB_ONE`].

pub mod climber;
pub mod combat;
pub mod enemy_projectile;
pub mod facing;
pub mod giant;
pub mod hop;
pub mod hopper;
pub mod lurker;
pub mod player;
pub mod rates;
mod rng;
pub mod schedule;
pub mod scheduler;
pub mod timer;
pub mod units;
pub mod world;
