//! Simulation core of a tile-based "village vs. raiders" strategy game.
//!
//! A defending villager clan and an attacking illager clan share a 30x30
//! grid. The core covers deterministic terrain generation, the grid/entity
//! state machine (building combustion, spawn-site search, entity drift),
//! the bounded particle pool, and the per-player input/affordability logic.
//! Rendering, audio and persistent storage are capability surfaces of the
//! host: the library only computes the commands the host should perform.

pub mod cell;
pub mod entity;
pub mod grid;
pub mod input;
pub mod particles;
pub mod rng;
pub mod sim;
pub mod sound;
pub mod sprites;
pub mod terrain;
