//! Deterministic gameplay core of a vertically scrolling arcade shooter.
//!
//! All quantities are fixed-point integers:
//! - positions and lengths are in milli-pixels,
//! - durations are in milliseconds,
//! - velocities are in milli-pixels per millisecond (numerically pixels per second),
//! - scaling factors are in per-mille (1000 means 1.0),
//! - angles are in milli-degrees.

pub mod difficulty;
pub mod fixed;
pub mod player;
pub mod names;
pub mod events;
pub mod powerups;
pub mod projectiles;
pub mod boss;
pub mod enemies;
pub mod storyboard;
pub mod waves;
pub mod collisions;
pub mod world;
