//! Simulation configuration: fluid-type presets and the flat parameter
//! surface the core consumes.
//!
//! All continuous parameters are fixed-point scalars (see `fixed`). The
//! fluid-type selector resolves gravity, target density, pressure
//! multipliers, viscosity and interaction strength from one of two named
//! presets once, at configuration time; the per-step pipeline never
//! branches on the fluid type except where the behaviour itself differs
//! (ghost boundary, interaction falloff).

use vstd::prelude::*;

use crate::fixed::{Vec2, SCALE};
use crate::physics::MAX_KERNEL_RADIUS;

verus! {

/// Which of the two built-in fluids is simulated.
#[derive(Clone, Copy, PartialEq, Eq, Structural, Debug)]
pub enum FluidType {
    Gas,
    Liquid,
}

/// How the initial particles are placed: a one-time bulk grid, or a
/// continuous flow of injected particles.
#[derive(Clone, Copy, PartialEq, Eq, Structural, Debug)]
pub enum FluidSpawnMode {
    Grid,
    Flow,
}

/// Direction of the pointer interaction force.
#[derive(Clone, Copy, PartialEq, Eq, Structural, Debug)]
pub enum InteractionType {
    Pull,
    Push,
}

/// The flat, read-only parameter set consumed by the core.
#[derive(Clone, Copy, PartialEq, Eq, Structural, Debug)]
pub struct Config {
    pub particle_radius: i64,
    pub particle_count: u32,
    pub boundary_damping: i64,
    pub gravity: Vec2,
    pub mass: i64,
    pub smoothing_radius: i64,
    pub target_density: i64,
    pub pressure_multiplier: i64,
    pub near_pressure_multiplier: i64,
    pub interaction_strength: i64,
    pub interaction_radius: i64,
    pub viscosity_strength: i64,
    pub target_ghost_spacing: i64,
    pub start_ghost_spacing_multiplier: i64,
    pub ghost_wall_start_percent: i64,
    pub fluid_type: FluidType,
    pub fluid_spawn_mode: FluidSpawnMode,
    pub flow_spawn_rate: i64,
    pub flow_spawn_width: i64,
}

impl Config {
    /// The bounds the per-step pipeline relies on.
    pub open spec fn wf(&self) -> bool {
        &&& 0 < self.smoothing_radius <= MAX_KERNEL_RADIUS
        &&& 0 <= self.mass
        &&& 0 <= self.particle_radius
        &&& 0 <= self.boundary_damping
        &&& 0 <= self.target_ghost_spacing
        &&& 0 <= self.start_ghost_spacing_multiplier
        &&& 0 <= self.ghost_wall_start_percent < SCALE
        &&& 0 <= self.interaction_radius
        &&& 0 <= self.flow_spawn_rate
        &&& 0 <= self.flow_spawn_width
        &&& self.particle_count < 0xffff_ffffu32
        &&& self.particle_radius <= 1_000_000_000
        &&& self.flow_spawn_width <= 1_000_000_000_000
    }

    /// The built-in liquid preset in continuous-flow mode.
    pub fn new() -> (c: Config)
        ensures
            c.fluid_type == FluidType::Liquid,
            c.fluid_spawn_mode == FluidSpawnMode::Flow,
            c.gravity == (Vec2 { x: 0i64, y: SCALE }),
            c.target_density == 5000 * SCALE,
            c.pressure_multiplier == 750 * SCALE,
            c.viscosity_strength == 3 * SCALE,
            c.near_pressure_multiplier == 100 * SCALE,
            c.interaction_strength == 2500 * SCALE,
            c.particle_radius == 3 * SCALE,
            c.particle_count == 3000u32,
            c.boundary_damping == 7000i64,
            c.mass == SCALE,
            c.smoothing_radius == 40 * SCALE,
            c.interaction_radius == 200 * SCALE,
            c.target_ghost_spacing == 3 * SCALE,
            c.start_ghost_spacing_multiplier == 26000i64,
            c.ghost_wall_start_percent == 6000i64,
            c.flow_spawn_rate == 100 * SCALE,
            c.flow_spawn_width == 120 * SCALE,
            c.wf(),
    {
        let fluid_type = FluidType::Liquid;
        let fluid_spawn_mode = FluidSpawnMode::Flow;

        let gravity = match fluid_type {
            FluidType::Liquid => Vec2::new(0, SCALE),
            FluidType::Gas => Vec2::new(0, 0),
        };

        let target_density = match fluid_type {
            FluidType::Liquid => 5000 * SCALE,
            FluidType::Gas => 150 * SCALE,
        };

        let pressure_multiplier = match fluid_type {
            FluidType::Liquid => 750 * SCALE,
            FluidType::Gas => 150 * SCALE,
        };

        let viscosity_strength = match fluid_type {
            FluidType::Liquid => 3 * SCALE,
            FluidType::Gas => 5 * SCALE,
        };

        let near_pressure_multiplier = match fluid_type {
            FluidType::Liquid => 100 * SCALE,
            FluidType::Gas => 0,
        };

        let interaction_strength = match fluid_type {
            FluidType::Liquid => 2500 * SCALE,
            FluidType::Gas => 5000 * SCALE,
        };

        Config {
            particle_radius: 3 * SCALE,
            particle_count: 3000,
            boundary_damping: 7000,
            gravity,
            mass: SCALE,
            smoothing_radius: 40 * SCALE,
            target_density,
            pressure_multiplier,
            near_pressure_multiplier,
            interaction_strength,
            interaction_radius: 200 * SCALE,
            viscosity_strength,
            target_ghost_spacing: 3 * SCALE,
            start_ghost_spacing_multiplier: 26000,
            ghost_wall_start_percent: 6000,
            fluid_type,
            fluid_spawn_mode,
            flow_spawn_rate: 100 * SCALE,
            flow_spawn_width: 120 * SCALE,
        }
    }

    /// Continuous-flow spawning is only supported for the liquid fluid; an
    /// unsupported combination must be rejected at configuration time.
    pub fn spawn_mode_supported(&self) -> (ok: bool)
        ensures
            ok == !(self.fluid_type == FluidType::Gas && self.fluid_spawn_mode
                == FluidSpawnMode::Flow),
    {
        !(self.fluid_type == FluidType::Gas && self.fluid_spawn_mode == FluidSpawnMode::Flow)
    }
}

} // verus!
