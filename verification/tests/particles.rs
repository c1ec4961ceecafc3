//! Particle integration, boundary collision, pointer interaction and the
//! pair-force properties.

use fluid_sim::boundary::Boundary;
use fluid_sim::config::{Config, InteractionType};
use fluid_sim::fixed::{Vec2, SCALE};
use fluid_sim::fluid::Fluid;
use fluid_sim::grid::GridCell;
use fluid_sim::particle::Particle;
use fluid_sim::physics::Physics;

fn test_boundary() -> Boundary {
    Boundary {
        pos: Vec2::new(0, 0),
        width: 100 * SCALE,
        height: 100 * SCALE,
        damping: 7_000,
    }
}

#[test]
fn particle_new_is_at_rest() {
    let p = Particle::new(Vec2::new(5, 6), 3 * SCALE, true);
    assert_eq!(p.position, Vec2::new(5, 6));
    assert_eq!(p.predicted_position, Vec2::new(5, 6));
    assert_eq!(p.velocity, Vec2::new(0, 0));
    assert_eq!(p.acceleration, Vec2::new(0, 0));
    assert_eq!(p.density, 0);
    assert_eq!(p.near_density, 0);
    assert!(p.is_ghost);
}

#[test]
fn predict_position_looks_ahead() {
    let mut p = Particle::new(Vec2::new(10 * SCALE, 0), 3 * SCALE, false);
    p.velocity = Vec2::new(30 * SCALE, 0);
    p.predict_position();
    // 10 + 30 / 30 = 11 world units (the look-ahead is 1/30 s, stored as 333).
    assert_eq!(p.predicted_position.x, 10 * SCALE + 30 * 333);
    assert_eq!(p.position.x, 10 * SCALE);
}

#[test]
fn integration_applies_gravity_and_resets_acceleration() {
    let mut p = Particle::new(Vec2::new(0, 0), 3 * SCALE, false);
    // One full second under unit gravity (scaled by DISTANCE_ZOOM = 1000).
    p.update(SCALE, Vec2::new(0, SCALE));
    assert_eq!(p.velocity, Vec2::new(0, 10_000_000));
    assert_eq!(p.position, Vec2::new(0, 10_000_000));
    assert_eq!(p.acceleration, Vec2::new(0, 0));
}

#[test]
fn integration_leaves_ghosts_untouched() {
    let mut p = Particle::new(Vec2::new(7, 8), 3 * SCALE, true);
    let before = p;
    p.update(SCALE, Vec2::new(0, SCALE));
    assert_eq!(p, before);
}

#[test]
fn collision_clamps_and_reflects_toward_wall() {
    let b = test_boundary();
    let mut particles = vec![Particle::new(Vec2::new(-SCALE, 50 * SCALE), 3 * SCALE, false)];
    particles[0].velocity = Vec2::new(-2 * SCALE, 0);
    b.check_collision(&mut particles);
    // Clamped onto the wall offset by the radius; velocity flipped and
    // scaled by the damping 0.7.
    assert_eq!(particles[0].position, Vec2::new(3 * SCALE, 50 * SCALE));
    assert_eq!(particles[0].velocity, Vec2::new(14_000, 0));
}

#[test]
fn collision_ignores_particle_moving_away() {
    let b = test_boundary();
    let mut particles = vec![Particle::new(Vec2::new(-SCALE, 50 * SCALE), 3 * SCALE, false)];
    particles[0].velocity = Vec2::new(SCALE / 2, 0);
    let before = particles[0];
    b.check_collision(&mut particles);
    assert_eq!(particles[0], before);
}

#[test]
fn collision_handles_far_wall() {
    let b = test_boundary();
    let mut particles = vec![Particle::new(Vec2::new(50 * SCALE, 99 * SCALE), 3 * SCALE, false)];
    particles[0].velocity = Vec2::new(0, 3 * SCALE);
    b.check_collision(&mut particles);
    assert_eq!(particles[0].position, Vec2::new(50 * SCALE, 97 * SCALE));
    assert_eq!(particles[0].velocity, Vec2::new(0, -21_000));
}

#[test]
fn collision_exempts_ghosts() {
    let b = test_boundary();
    let mut particles = vec![Particle::new(Vec2::new(-SCALE, 50 * SCALE), 3 * SCALE, true)];
    let before = particles[0];
    b.check_collision(&mut particles);
    assert_eq!(particles[0], before);
}

#[test]
fn isolated_particle_has_self_density_only() {
    let particles = vec![Particle::new(Vec2::new(0, 0), 3 * SCALE, false)];
    let neighbors = vec![0usize];
    let d = Physics::calculate_density_from_neighbors(
        particles[0].predicted_position,
        &neighbors,
        &particles,
        SCALE,
        40 * SCALE,
    );
    let nd = Physics::calculate_near_density_from_neighbors(
        particles[0].predicted_position,
        &neighbors,
        &particles,
        SCALE,
        40 * SCALE,
    );
    assert_eq!(d, 11_936_619);
    assert_eq!(nd, 19_894_366);
}

#[test]
fn isolated_particle_feels_no_force() {
    let config = Config::new();
    let mut far = Particle::new(Vec2::new(90 * SCALE, 0), 3 * SCALE, false);
    far.density = 5000 * SCALE;
    far.near_density = 100 * SCALE;
    let mut near = Particle::new(Vec2::new(0, 0), 3 * SCALE, false);
    near.density = 5000 * SCALE;
    near.near_density = 100 * SCALE;
    let particles = vec![near, far];
    let neighbors = vec![0usize, 1usize];
    let pressure = Physics::calculate_pressure_force_on_particle(
        0,
        &neighbors,
        &particles,
        SCALE,
        40 * SCALE,
        &config,
    );
    let viscosity = Physics::calculate_viscosity_from_neighbors(
        0,
        &neighbors,
        &particles,
        SCALE,
        40 * SCALE,
        config.viscosity_strength,
    );
    assert_eq!(pressure, Vec2::new(0, 0));
    assert_eq!(viscosity, Vec2::new(0, 0));
}

#[test]
fn pair_pressure_forces_are_opposite() {
    let config = Config::new();
    let mut a = Particle::new(Vec2::new(0, 0), 3 * SCALE, false);
    let mut b = Particle::new(Vec2::new(20 * SCALE, 10 * SCALE), 3 * SCALE, false);
    a.density = 6000 * SCALE;
    a.near_density = 200 * SCALE;
    b.density = 6000 * SCALE;
    b.near_density = 200 * SCALE;
    let particles = vec![a, b];
    let neighbors = vec![0usize, 1usize];
    let on_a = Physics::calculate_pressure_force_on_particle(
        0,
        &neighbors,
        &particles,
        SCALE,
        40 * SCALE,
        &config,
    );
    let on_b = Physics::calculate_pressure_force_on_particle(
        1,
        &neighbors,
        &particles,
        SCALE,
        40 * SCALE,
        &config,
    );
    assert_eq!(on_a.x, -on_b.x);
    assert_eq!(on_a.y, -on_b.y);
    assert_ne!(on_a, Vec2::new(0, 0));
}

fn one_particle_fluid() -> Fluid {
    Fluid {
        grid: vec![GridCell::new(40 * SCALE, Vec2::new(0, 0))],
        particles: vec![Particle::new(Vec2::new(0, 0), 3 * SCALE, false)],
        grid_cols: 1,
        grid_rows: 1,
        grid_size: 40 * SCALE,
        particle_spawner: None,
        world_grid_origin: Vec2::new(0, 0),
    }
}

#[test]
fn interaction_pull_uses_sixth_power_falloff() {
    let config = Config::new();
    let mut fluid = one_particle_fluid();
    // Pointer one half interaction radius away, straight along x.
    fluid.handle_interaction(Vec2::new(100 * SCALE, 0), InteractionType::Pull, &config);
    assert_eq!(fluid.particles[0].acceleration, Vec2::new(24_610_000, 0));
}

#[test]
fn interaction_push_is_negated_pull() {
    let config = Config::new();
    let mut fluid = one_particle_fluid();
    fluid.handle_interaction(Vec2::new(100 * SCALE, 0), InteractionType::Push, &config);
    assert_eq!(fluid.particles[0].acceleration, Vec2::new(-24_610_000, 0));
}

#[test]
fn interaction_skips_particles_outside_radius() {
    let config = Config::new();
    let mut fluid = one_particle_fluid();
    let before = fluid.particles[0];
    fluid.handle_interaction(Vec2::new(300 * SCALE, 0), InteractionType::Pull, &config);
    assert_eq!(fluid.particles[0], before);
}
