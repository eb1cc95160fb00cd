//! A two-player paddle-and-ball simulation core: paddle motion with boundary
//! clamping, angle-driven ball motion, paddle collision and bounce, scoring on
//! out-of-bounds exit, and randomized respawn.
//!
//! All coordinates, extents, speeds and angles are fixed-point integers in
//! milliunits (one screen unit, or one degree, equals 1000). The embedding
//! layer that renders frames and reads keys is not part of this crate; it
//! drives one tick through `GameState::tick_collision` and
//! `GameState::tick_motion`, computing the trigonometric projection of the
//! ball's angle between the two phases.

pub mod config;
pub mod geom;
pub mod pad;
pub mod ball;
pub mod game;
