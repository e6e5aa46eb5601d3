//! Verified gameplay core of a 2D arcade shooter: skill trees, the player's
//! stat block and timed effects, projectiles, debris and the per-frame
//! simulation step. Quantities are fixed point: times in microseconds,
//! ratios in thousandths, lengths in thousandths of a pixel.

pub mod fixed;
pub mod skill_tree;
pub mod stats;
pub mod items;
pub mod player;
pub mod debris;
pub mod bullet;
pub mod simulation;
pub mod random;
pub mod savegame;
