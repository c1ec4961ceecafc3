//! Kernel values, cutoff behaviour and pressure conversion.

use fluid_sim::config::{Config, FluidSpawnMode, FluidType};
use fluid_sim::fixed::{fx_add, fx_mul, fx_sub, Vec2, FX_MAX, SCALE};
use fluid_sim::physics::Physics;

fn radius() -> i64 {
    40 * SCALE
}

#[test]
fn density_kernel_exact_values() {
    assert_eq!(Physics::density_kernel(radius(), 0), 11_936_619);
    assert_eq!(Physics::density_kernel(radius(), 20 * SCALE), 2_984_154);
}

#[test]
fn near_density_kernel_exact_values() {
    assert_eq!(Physics::near_density_kernel(radius(), 0), 19_894_366);
    assert_eq!(Physics::near_density_kernel(radius(), 20 * SCALE), 2_486_795);
}

#[test]
fn viscosity_kernel_exact_values() {
    assert_eq!(Physics::viscosity_kernel(radius(), 0), 7_957_746);
    assert_eq!(Physics::viscosity_kernel(radius(), 20 * SCALE), 3_357_174);
}

#[test]
fn kernel_derivative_exact_values() {
    assert_eq!(Physics::density_kernel_derivative(radius(), 20 * SCALE), -298_415_492);
    assert_eq!(
        Physics::near_density_kernel_derivative(radius(), 20 * SCALE),
        -373_019_366
    );
}

#[test]
fn kernels_vanish_beyond_cutoff() {
    let r = radius();
    for d in [r + 1, r + SCALE, 100 * SCALE] {
        assert_eq!(Physics::density_kernel(r, d), 0);
        assert_eq!(Physics::near_density_kernel(r, d), 0);
        assert_eq!(Physics::viscosity_kernel(r, d), 0);
        assert_eq!(Physics::density_kernel_derivative(r, d), 0);
        assert_eq!(Physics::near_density_kernel_derivative(r, d), 0);
    }
}

#[test]
fn kernels_continuous_at_cutoff() {
    // At distance == radius every kernel and derivative is exactly zero,
    // matching the value just past the cutoff: no sign discontinuity.
    let r = radius();
    assert_eq!(Physics::density_kernel(r, r), 0);
    assert_eq!(Physics::near_density_kernel(r, r), 0);
    assert_eq!(Physics::viscosity_kernel(r, r), 0);
    assert_eq!(Physics::density_kernel_derivative(r, r), 0);
    assert_eq!(Physics::near_density_kernel_derivative(r, r), 0);
    // And strictly inside the support the density kernels are positive.
    assert!(Physics::density_kernel(r, r - SCALE) > 0);
    assert!(Physics::near_density_kernel(r, r - SCALE) > 0);
}

#[test]
fn density_to_pressure_exact() {
    let (p, np) = Physics::density_to_pressure(
        6000 * SCALE,
        200 * SCALE,
        5000 * SCALE,
        750 * SCALE,
        100 * SCALE,
    );
    assert_eq!(p, 7_500_000_000);
    assert_eq!(np, 200_000_000);
}

#[test]
fn shared_pressure_is_mean() {
    let config = Config::new();
    let (sp, snp) = Physics::calculate_shared_pressure(
        6000 * SCALE,
        5000 * SCALE,
        200 * SCALE,
        0,
        &config,
    );
    // Pressures are 7_500_000_000 and 0; near-pressures 200_000_000 and 0.
    assert_eq!(sp, 3_750_000_000);
    assert_eq!(snp, 100_000_000);
}

#[test]
fn fixed_point_saturates_symmetrically() {
    assert_eq!(fx_add(FX_MAX, FX_MAX), FX_MAX);
    assert_eq!(fx_sub(-FX_MAX, FX_MAX), -FX_MAX);
    assert_eq!(fx_mul(FX_MAX, 2 * SCALE), FX_MAX);
    assert_eq!(fx_mul(FX_MAX, -2 * SCALE), -FX_MAX);
    // Truncation toward zero, in both signs.
    assert_eq!(fx_mul(15_000, 15_000), 22_500);
    assert_eq!(fx_mul(-15_000, 15_000), -22_500);
}

#[test]
fn distance_is_euclidean_and_symmetric() {
    let a = Vec2::new(0, 0);
    let b = Vec2::new(3 * SCALE, 4 * SCALE);
    assert_eq!(a.distance(b), 5 * SCALE);
    assert_eq!(b.distance(a), 5 * SCALE);
    assert_eq!(a.distance(a), 0);
}

#[test]
fn liquid_preset_values() {
    let c = Config::new();
    assert_eq!(c.fluid_type, FluidType::Liquid);
    assert_eq!(c.fluid_spawn_mode, FluidSpawnMode::Flow);
    assert_eq!(c.gravity, Vec2::new(0, SCALE));
    assert_eq!(c.target_density, 5000 * SCALE);
    assert_eq!(c.pressure_multiplier, 750 * SCALE);
    assert_eq!(c.near_pressure_multiplier, 100 * SCALE);
    assert_eq!(c.viscosity_strength, 3 * SCALE);
    assert_eq!(c.interaction_strength, 2500 * SCALE);
    assert_eq!(c.interaction_radius, 200 * SCALE);
    assert_eq!(c.smoothing_radius, 40 * SCALE);
    assert_eq!(c.mass, SCALE);
    assert_eq!(c.boundary_damping, 7_000);
    assert_eq!(c.particle_radius, 3 * SCALE);
    assert_eq!(c.particle_count, 3000);
    assert_eq!(c.flow_spawn_rate, 100 * SCALE);
    assert_eq!(c.flow_spawn_width, 120 * SCALE);
}

#[test]
fn gas_flow_combination_rejected() {
    let mut c = Config::new();
    assert!(c.spawn_mode_supported());
    c.fluid_type = FluidType::Gas;
    assert!(!c.spawn_mode_supported());
    c.fluid_spawn_mode = FluidSpawnMode::Grid;
    assert!(c.spawn_mode_supported());
}
