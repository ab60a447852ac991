//! Frame-update simulation core of a top-down, grid-based 2D game.
//!
//! The library holds the per-frame logic and its invariants: cooldown
//! timing, grid-snapped player movement, the one-way transformation state
//! machine, camera zoom/follow and the view rectangle it yields, tile
//! visibility culling, and NPC spawn/despawn. The host (window, input
//! devices, rendering, entity presentation) feeds each tick an input
//! snapshot and the elapsed time, and reads the updated state back.
//!
//! Units are fixed-point so that every step is exact: positions in whole
//! pixels, durations in milliseconds, zoom in hundredths.

pub mod state;
pub mod cooldown;
pub mod movement;
pub mod henshin;
pub mod camera;
pub mod culling;
pub mod npc;
pub mod world;
