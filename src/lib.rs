//! Per-frame simulation of a lane-dodging arcade game: timed enemy spawning,
//! motion and despawning, collision damage, scoring, difficulty scaling and
//! the game-over lifecycle, all on integer state.
pub mod tier;
pub mod timer;
pub mod session;
pub mod motion;
pub mod collision;
pub mod decimal;
pub mod scenery;
