//! Autonomous control core for a simulated craft.
//!
//! The crate turns high-level navigational intent (seek a point, arrive at a
//! point with a target speed, avoid an obstacle, patrol a circuit of
//! waypoints) into bounded thrust commands for a rigid body, and manages the
//! lifecycle of the steering behaviours that produce that intent.
//!
//! All physical quantities are carried as saturating fixed-point numbers:
//! `i64` values scaled by [`fx::FX_ONE`] steps per unit, kept within
//! [`fx::FX_MAX`] by every arithmetic helper. This keeps the whole control
//! loop free of overflow and of the NaN propagation that plagues
//! floating-point controllers.

pub mod fx;
pub mod math;
pub mod crafts;
pub mod engine;
pub mod flock;
pub mod pid;
pub mod registry;
pub mod steering;
pub mod strategy;
