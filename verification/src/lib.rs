//! Adapter between a grid-game host engine and externally written decision
//! routines.  Each turn the host hands over an untyped world description; the
//! adapter validates it into a well-typed snapshot, runs the player's decision
//! routine against it together with the player's persistent session state,
//! harvests the per-turn announcement, and returns the chosen destination.

pub mod announce;
pub mod dispatch;
pub mod geometry;
pub mod model;
pub mod raw;
pub mod walls;
