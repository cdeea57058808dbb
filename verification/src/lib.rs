//! A deterministic 2-D particle-life simulation core.
//!
//! Particles of `K` types move on a toroidal plane under pairwise forces
//! derived from per-type-pair interaction matrices. All state is kept in
//! fixed-point integers (see [`fixed::SCALE`]), so every tick is an exact,
//! reproducible function of the previous generation.

pub mod config;
pub mod engine;
pub mod fixed;
pub mod params;
pub mod rng;
pub mod scene;
pub mod vector;
pub mod world;

pub use config::SimConfig;
pub use fixed::SCALE;
pub use params::ParticleTypeManager;
pub use scene::UpdateEngine;
pub use world::{Particle, WorldState};
