//! A 2D smoothed-particle-hydrodynamics (SPH) fluid simulation core.
//!
//! All continuous quantities (positions, velocities, densities, pressures)
//! are carried as fixed-point integers with `SCALE` sub-units per world unit,
//! so that every pass of the per-step pipeline can be verified: the smoothing
//! kernels, the spatial grid, the density and force passes, integration,
//! boundary collision, the ghost-particle boundary layer and the flow spawner.
//! Rendering, input polling and configuration-file loading live outside this
//! crate and talk to it through plain values.

pub mod boundary;
pub mod config;
pub mod fixed;
pub mod fluid;
pub mod grid;
pub mod particle;
pub mod physics;
pub mod simulation;
pub mod spawner;
