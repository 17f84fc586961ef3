//! The rules by which a flock of boids moves.
//!
//! Each boid steers by what the boids around it do: it keeps its distance
//! from those too close, takes up the heading of those it sees, and makes
//! for their middle; walls push it back, and its speed stays within limits.
//!
//! This library holds every rule of that behaviour that is not itself
//! arithmetic: which boids count for which, and as what; which walls push,
//! and which way; when a velocity is kept and when it is replaced; how a boid
//! is turned. Positions, distances and weights are single-precision numbers,
//! held by their bit patterns and only ever compared here. The sums and
//! products belong to whoever drives the flock.

pub mod boid;
pub mod border;
pub mod collision_group;
pub mod config;
pub mod neighbours;
pub mod scalar;

pub use boid::{Boid, BoidSpeed, BoidTurningStrength, BoidViewConfig};
pub use border::BoidBorder;
pub use collision_group::BoidCollisionGroup;
pub use config::{BoidSpace, BoidsConfig};
