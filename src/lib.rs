//! A small frame-driven 2D engine: rectangle geometry, shared sprite regions,
//! time-driven animation, per-frame input snapshots, frame pacing and the
//! view state machine, with the arcade entities built on top of them.

pub mod geometry;
pub mod sprite;
pub mod animation;
pub mod events;
pub mod engine;
pub mod fonts;
pub mod bullets;
pub mod asteroid;
pub mod ship;
pub mod views;
