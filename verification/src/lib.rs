//! A small desktop CPU widget, factored so that its core is verified:
//! a background sampler publishes per-core utilization snapshots into a
//! shared cell, and a render loop maps the latest snapshot to bar geometry.
//!
//! Utilization is carried as integer basis points (hundredths of a percent),
//! and clip-space coordinates as exact integer numerators over fixed scales,
//! so every mapping rule is stated and proved exactly.

pub mod render;
pub mod sampler;
pub mod store;
