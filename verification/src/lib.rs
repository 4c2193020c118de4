//! A Barnes-Hut gravity core: a quadtree over 2-D point masses, with mass
//! aggregation and an opening-angle force approximation.
//!
//! All physical quantities — coordinates, velocities, masses and time steps —
//! are fixed-point `i64` values counting billionths of a unit, so that every
//! arithmetic step has an exact, machine-checked meaning.

pub mod fixed;
pub mod gravity;
pub mod laws;
pub mod mass;
pub mod particle;
pub mod tree;
pub mod vector;
