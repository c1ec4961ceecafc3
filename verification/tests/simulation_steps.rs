//! Bulk and flow spawning, the spatial grid, and whole simulation steps.

use fluid_sim::config::{Config, FluidSpawnMode, FluidType};
use fluid_sim::fixed::{Vec2, SCALE};
use fluid_sim::fluid::Fluid;
use fluid_sim::grid::GridCell;
use fluid_sim::particle::Particle;
use fluid_sim::simulation::Simulation;
use fluid_sim::spawner::{spawn_particles_grid, ParticleSpawner};

fn liquid_config() -> Config {
    Config {
        particle_radius: 3 * SCALE,
        particle_count: 100,
        boundary_damping: 7_000,
        gravity: Vec2::new(0, SCALE),
        mass: SCALE,
        smoothing_radius: 40 * SCALE,
        target_density: 5000 * SCALE,
        pressure_multiplier: 750 * SCALE,
        near_pressure_multiplier: 100 * SCALE,
        interaction_strength: 2500 * SCALE,
        interaction_radius: 200 * SCALE,
        viscosity_strength: 3 * SCALE,
        target_ghost_spacing: 3 * SCALE,
        start_ghost_spacing_multiplier: 26_000,
        ghost_wall_start_percent: 6_000,
        fluid_type: FluidType::Liquid,
        fluid_spawn_mode: FluidSpawnMode::Flow,
        flow_spawn_rate: 100 * SCALE,
        flow_spawn_width: 120 * SCALE,
    }
}

fn gas_config() -> Config {
    Config {
        particle_count: 1,
        gravity: Vec2::new(0, 0),
        fluid_type: FluidType::Gas,
        fluid_spawn_mode: FluidSpawnMode::Grid,
        ..liquid_config()
    }
}

#[test]
fn bulk_grid_spawn_is_a_centred_lattice() {
    let mut config = liquid_config();
    config.particle_count = 4;
    let particles = spawn_particles_grid(&config, 100 * SCALE, 100 * SCALE);
    assert_eq!(particles.len(), 4);
    // 2 x 2 lattice, spacing 2.5 radii = 7.5 units, centred on the map.
    let expected = [
        (425_000, 425_000),
        (500_000, 425_000),
        (425_000, 500_000),
        (500_000, 500_000),
    ];
    for (k, (x, y)) in expected.iter().enumerate() {
        assert_eq!(particles[k].position, Vec2::new(*x, *y));
        assert_eq!(particles[k].predicted_position, particles[k].position);
        assert!(!particles[k].is_ghost);
    }
}

#[test]
fn bulk_grid_spawn_respects_count_cap() {
    let mut config = liquid_config();
    config.particle_count = 3;
    let particles = spawn_particles_grid(&config, 100 * SCALE, 100 * SCALE);
    assert_eq!(particles.len(), 3);
    let empty = spawn_particles_grid(
        &Config { particle_count: 0, ..liquid_config() },
        100 * SCALE,
        100 * SCALE,
    );
    assert_eq!(empty.len(), 0);
}

fn test_spawner() -> ParticleSpawner {
    ParticleSpawner {
        time_to_next_spawn: 0,
        spawn_x_min: 100_000,
        spawn_x_max: 900_000,
        spawn_y: 42_000,
        flow_rate_interval: 100,
    }
}

#[test]
fn flow_spawner_injects_exact_count_up_to_cap() {
    // Rate R = 100/s, cap C = 5; after T = C / R = 0.05 s exactly
    // min(C, floor(R * T) + 1) = min(5, 6) = 5 particles exist.
    let mut config = liquid_config();
    config.particle_count = 5;
    let mut spawner = test_spawner();
    let mut particles: Vec<Particle> = Vec::new();
    spawner.update_flow_spawn(&mut particles, &config, 500);
    assert_eq!(particles.len(), 5);
    for p in &particles {
        assert!(100_000 <= p.position.x && p.position.x < 900_000);
        assert_eq!(p.position.y, 42_000);
        assert_eq!(p.velocity, Vec2::new(0, 0));
        assert!(!p.is_ghost);
        assert_eq!(p.radius, config.particle_radius);
    }
}

#[test]
fn flow_spawner_count_below_cap_and_timer() {
    let config = liquid_config();
    let mut spawner = test_spawner();
    let mut particles: Vec<Particle> = Vec::new();
    // floor(250 / 100) + 1 = 3 spawns; timer ends at -250 + 300 = 50.
    spawner.update_flow_spawn(&mut particles, &config, 250);
    assert_eq!(particles.len(), 3);
    assert_eq!(spawner.time_to_next_spawn, 50);
}

#[test]
fn flow_spawner_idles_when_full_or_degenerate() {
    let mut config = liquid_config();
    config.particle_count = 0;
    let mut spawner = test_spawner();
    let mut particles: Vec<Particle> = Vec::new();
    spawner.update_flow_spawn(&mut particles, &config, 500);
    assert_eq!(particles.len(), 0);

    let mut config2 = liquid_config();
    config2.fluid_spawn_mode = FluidSpawnMode::Grid;
    let mut spawner2 = test_spawner();
    spawner2.update_flow_spawn(&mut particles, &config2, 500);
    assert_eq!(particles.len(), 0);
}

#[test]
fn grid_rebuild_sorts_particles_into_cells() {
    let mut fluid = Fluid {
        grid: vec![
            GridCell::new(40 * SCALE, Vec2::new(0, 0)),
            GridCell::new(40 * SCALE, Vec2::new(40 * SCALE, 0)),
            GridCell::new(40 * SCALE, Vec2::new(0, 40 * SCALE)),
            GridCell::new(40 * SCALE, Vec2::new(40 * SCALE, 40 * SCALE)),
        ],
        particles: vec![
            Particle::new(Vec2::new(100_000, 100_000), 3 * SCALE, false),
            Particle::new(Vec2::new(500_000, 100_000), 3 * SCALE, false),
            Particle::new(Vec2::new(500_000, 500_000), 3 * SCALE, false),
        ],
        grid_cols: 2,
        grid_rows: 2,
        grid_size: 40 * SCALE,
        particle_spawner: None,
        world_grid_origin: Vec2::new(0, 0),
    };
    fluid.update_spatial_grid();
    assert_eq!(fluid.grid[0].particles, vec![0]);
    assert_eq!(fluid.grid[1].particles, vec![1]);
    assert_eq!(fluid.grid[2].particles, Vec::<usize>::new());
    assert_eq!(fluid.grid[3].particles, vec![2]);

    assert_eq!(fluid.get_grid_coords(Vec2::new(500_000, 500_000)), (1, 1));
    // Positions outside the grid clamp to the nearest valid cell.
    assert_eq!(fluid.get_grid_coords(Vec2::new(-SCALE, 9_000_000)), (0, 1));

    let neighbors = fluid.get_neighbor_particle_indices(0, 0);
    assert_eq!(neighbors, vec![0, 1, 2]);
}

#[test]
fn ghost_spacing_factor_interpolates_on_the_sides() {
    let config = liquid_config();
    // Bottom cells always use the base spacing.
    assert_eq!(Fluid::ghost_spacing_factor(3, 4, true, false, &config), 10_000);
    // A side cell below the start percentage clamps to the full multiplier.
    assert_eq!(Fluid::ghost_spacing_factor(1, 4, false, true, &config), 26_000);
    // A side cell two thirds of the way up interpolates between the
    // multiplier (2.6) and 1.0.
    assert_eq!(Fluid::ghost_spacing_factor(2, 4, false, true, &config), 23_336);
    // At the very top of the column the factor reaches 1.0.
    assert_eq!(Fluid::ghost_spacing_factor(3, 4, false, true, &config), 10_000);
}

#[test]
fn liquid_construction_builds_ghost_ring() {
    let config = liquid_config();
    let sim = Simulation::new(config, 160 * SCALE, 160 * SCALE);
    assert_eq!(sim.boundary.width, 80 * SCALE);
    assert_eq!(sim.boundary.pos, Vec2::new(40 * SCALE, 40 * SCALE));
    // Two base cells per axis, plus the ghost ring.
    assert_eq!(sim.fluid.grid_cols, 4);
    assert_eq!(sim.fluid.grid_rows, 4);
    assert_eq!(sim.fluid.grid.len(), 16);
    // Bottom row: 4 cells of 16 ghosts; sides: one cell per side above the
    // start percentage, 1 ghost each; top row: none.
    assert_eq!(sim.fluid.particles.len(), 66);
    for p in &sim.fluid.particles {
        assert!(p.is_ghost);
        assert_eq!(p.velocity, Vec2::new(0, 0));
        assert_eq!(p.predicted_position, p.position);
        assert_eq!(p.radius, config.particle_radius);
    }
    assert!(sim.fluid.particle_spawner.is_some());

    // Grid cells sit at origin + (column, row) * grid size; the expanded
    // origin is one cell above and left of the boundary.
    assert_eq!(sim.fluid.world_grid_origin, Vec2::new(0, 0));
    assert_eq!(sim.fluid.grid[5].position, Vec2::new(40 * SCALE, 40 * SCALE));
    assert_eq!(sim.fluid.grid[5].grid_size, 40 * SCALE);

    // The first emitted ghost: side cell (row 2, column 0) holds a single
    // ghost centred in the cell by the interpolated spacing.
    assert_eq!(sim.fluid.particles[0].position, Vec2::new(200_000, 1_000_000));
    // The bottom row follows with 4 x 4 clusters at the base spacing.
    let bottom_first = sim.fluid.particles[2].position;
    assert_eq!(bottom_first, Vec2::new(65_000, 1_265_000));
}

#[test]
fn liquid_grid_mode_places_live_particles_inside_the_box() {
    let mut config = liquid_config();
    config.fluid_spawn_mode = FluidSpawnMode::Grid;
    config.particle_count = 4;
    let sim = Simulation::new(config, 160 * SCALE, 160 * SCALE);
    // Four live lattice particles shifted by the boundary origin, then the
    // ghost ring.
    assert_eq!(sim.fluid.particles.len(), 70);
    let expected = [
        (725_000, 725_000),
        (800_000, 725_000),
        (725_000, 800_000),
        (800_000, 800_000),
    ];
    for (k, (x, y)) in expected.iter().enumerate() {
        let p = sim.fluid.particles[k];
        assert!(!p.is_ghost);
        assert_eq!(p.position, Vec2::new(*x, *y));
        assert_eq!(p.predicted_position, p.position);
    }
    for p in sim.fluid.particles.iter().skip(4) {
        assert!(p.is_ghost);
    }
    assert!(sim.fluid.particle_spawner.is_none());
}

#[test]
fn steps_spawn_exactly_by_rate_and_preserve_ghosts() {
    let config = liquid_config();
    let mut sim = Simulation::new(config, 160 * SCALE, 160 * SCALE);
    let ghosts_before: Vec<Particle> = sim.fluid.particles.clone();
    assert_eq!(ghosts_before.len(), 66);

    // dt = 167 (about one 60th of a second); interval = 100.
    sim.update(167);
    assert_eq!(sim.fluid.particles.len(), 68);
    sim.update(167);
    assert_eq!(sim.fluid.particles.len(), 70);
    sim.update(167);
    assert_eq!(sim.fluid.particles.len(), 72);

    // Ghost particles are bit-identical after any number of steps.
    for i in 0..66 {
        let p = sim.fluid.particles[i];
        let q = ghosts_before[i];
        assert!(p.is_ghost);
        assert_eq!(p.position, q.position);
        assert_eq!(p.velocity, q.velocity);
        assert_eq!(p.acceleration, q.acceleration);
        assert_eq!(p.predicted_position, q.predicted_position);
    }

    // Densities never come out negative, and a ghost in the packed bottom
    // row has strictly positive density.
    for p in &sim.fluid.particles {
        assert!(p.density >= 0);
        assert!(p.near_density >= 0);
    }
    assert!(sim.fluid.particles.iter().any(|p| p.density > 0));

    // Spawned particles are live and inside the spawn strip's x range.
    for p in sim.fluid.particles.iter().skip(66) {
        assert!(!p.is_ghost);
    }

    // Every particle sits in exactly one grid cell.
    let total: usize = sim.fluid.grid.iter().map(|c| c.particles.len()).sum();
    assert_eq!(total, sim.fluid.particles.len());
}

#[test]
fn paused_simulation_does_not_move() {
    let config = liquid_config();
    let mut sim = Simulation::new(config, 160 * SCALE, 160 * SCALE);
    sim.set_paused(true);
    let before = sim.fluid.particles.clone();
    sim.update(167);
    assert_eq!(sim.fluid.particles, before);
}

#[test]
fn single_gas_particle_stays_at_rest() {
    // An isolated particle has only its self-contribution as density and
    // feels no net force; without gravity it does not move at all.
    let config = gas_config();
    let mut sim = Simulation::new(config, 160 * SCALE, 160 * SCALE);
    assert_eq!(sim.fluid.particles.len(), 1);
    let start = sim.fluid.particles[0].position;
    sim.update(167);
    let p = sim.fluid.particles[0];
    assert_eq!(p.position, start);
    assert_eq!(p.velocity, Vec2::new(0, 0));
    assert_eq!(p.density, 11_936_619);
    assert_eq!(p.near_density, 19_894_366);
}
