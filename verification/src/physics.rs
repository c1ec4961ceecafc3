//! SPH smoothing kernels and pressure/force helpers.
//!
//! Every kernel is a pure function of the support radius and a distance,
//! with compact support: it is exactly zero beyond the radius, and exactly
//! zero at the radius, so there is no sign discontinuity at the cutoff.
//! Kernel arguments are divided by `DISTANCE_ZOOM` (1000) and pi enters as
//! the rational approximation `PI_NUM / PI_DEN` (355 / 113); each kernel is
//! evaluated as a single integer quotient so no intermediate underflows.
//! The combined numerator factors appear as literals below so the verifier
//! can bound every product; each one is spelled out where it is used.

use vstd::prelude::*;

use crate::config::Config;
use crate::fixed::{
    abs_v, dist_v, fx_add_v, fx_div_v, fx_half_v, fx_mul_v, fx_sub_v, lemma_dist_symmetric,
    lemma_fx_mul_odd_left, lemma_mul_bounds, lemma_mul_pos, lemma_sat_odd, lemma_sqrt_floor_is,
    lemma_tdiv_odd, sat_v, vadd_v, vec2_ok, vneg_v, vscale_v, vsub_v, fx_add, fx_div, fx_half,
    fx_mul, fx_sub, isqrt, Vec2,
};
use crate::particle::Particle;

verus! {

/// Numerator of the rational approximation of pi.
pub const PI_NUM: i64 = 355;

/// Denominator of the rational approximation of pi.
pub const PI_DEN: i64 = 113;

/// Largest support radius the kernels accept; keeps every intermediate
/// kernel product inside 128 bits.
pub const MAX_KERNEL_RADIUS: i64 = 1_000_000_000;

/// Ratio `(radius - distance) / radius` in fixed-point sub-units.
pub open spec fn kernel_ratio_v(radius: int, distance: int) -> int
    recommends
        0 < radius,
        0 <= distance <= radius,
{
    ((radius - distance) * 10_000) / radius
}

/// Ratio `distance / radius` in fixed-point sub-units.
pub open spec fn distance_ratio_v(radius: int, distance: int) -> int
    recommends
        0 < radius,
        0 <= distance <= radius,
{
    (distance * 10_000) / radius
}

/// `densityKernel(r, d) = (r' - d')^2 / (pi * r'^4 / 6)` for the zoomed
/// `r' = r / DISTANCE_ZOOM`, `d' = d / DISTANCE_ZOOM`; zero past the radius.
/// In sub-units: `678_000_000 = 6 * DISTANCE_ZOOM^2 * PI_DEN`.
pub open spec fn density_kernel_v(radius: int, distance: int) -> int
    recommends
        0 < radius,
        0 <= distance,
{
    if distance > radius {
        0
    } else {
        let a = kernel_ratio_v(radius, distance);
        sat_v((678_000_000 * a * a * 10_000) / (355 * radius * radius))
    }
}

/// `nearDensityKernel(r, d) = (r' - d')^3 / (pi * r'^5 / 10)`; zero past the
/// radius. In sub-units: `1_130_000_000 = 10 * DISTANCE_ZOOM^2 * PI_DEN`.
pub open spec fn near_density_kernel_v(radius: int, distance: int) -> int
    recommends
        0 < radius,
        0 <= distance,
{
    if distance > radius {
        0
    } else {
        let a = kernel_ratio_v(radius, distance);
        sat_v((1_130_000_000 * a * a * a) / (355 * radius * radius))
    }
}

/// `viscosityKernel(r, d) = (r'^2 - d'^2)^3 / (pi * r'^8 / 4)`; zero past the
/// radius. In sub-units: `452_000_000 = 4 * DISTANCE_ZOOM^2 * PI_DEN`.
pub open spec fn viscosity_kernel_v(radius: int, distance: int) -> int
    recommends
        0 < radius,
        0 <= distance,
{
    if distance > radius {
        0
    } else {
        let e = distance_ratio_v(radius, distance);
        let b = 10_000 - (e * e) / 10_000;
        sat_v((452_000_000 * b * b * b) / (355 * radius * radius))
    }
}

/// `densityKernelDerivative(r, d) = 12 / (pi * r'^4) * (d' - r')`; zero past
/// the radius and never positive inside it. In sub-units:
/// `1_356_000_000_000 = 12 * DISTANCE_ZOOM^3 * PI_DEN`.
pub open spec fn density_kernel_derivative_v(radius: int, distance: int) -> int
    recommends
        0 < radius,
        0 <= distance,
{
    if distance > radius {
        0
    } else {
        let a = kernel_ratio_v(radius, distance);
        sat_v(
            -((1_356_000_000_000 * a * 10_000 * 10_000 * 10_000) / (355 * radius * radius
                * radius)),
        )
    }
}

/// `nearDensityKernelDerivative(r, d) = -30 / (pi * r'^5) * (r' - d')^2`;
/// zero past the radius and never positive inside it. In sub-units:
/// `3_390_000_000_000 = 30 * DISTANCE_ZOOM^3 * PI_DEN`.
pub open spec fn near_density_kernel_derivative_v(radius: int, distance: int) -> int
    recommends
        0 < radius,
        0 <= distance,
{
    if distance > radius {
        0
    } else {
        let a = kernel_ratio_v(radius, distance);
        sat_v(-((3_390_000_000_000 * a * a * 10_000 * 10_000) / (355 * radius * radius * radius)))
    }
}

/// The fixed-point ratios stay within one unit: `kernel_ratio_v` and
/// `distance_ratio_v` land in `[0, 10_000]`.
proof fn lemma_ratio_bounds(radius: int, distance: int)
    requires
        0 < radius,
        0 <= distance <= radius,
    ensures
        0 <= kernel_ratio_v(radius, distance) <= 10_000,
        0 <= distance_ratio_v(radius, distance) <= 10_000,
{
    vstd::arithmetic::div_mod::lemma_div_is_ordered(
        (radius - distance) * 10_000,
        radius * 10_000,
        radius,
    );
    vstd::arithmetic::div_mod::lemma_div_is_ordered(distance * 10_000, radius * 10_000, radius);
    vstd::arithmetic::div_mod::lemma_div_multiples_vanish(10_000, radius);
    assert(radius * 10_000 == 10_000 * radius);
    vstd::arithmetic::div_mod::lemma_div_pos_is_pos((radius - distance) * 10_000, radius);
    vstd::arithmetic::div_mod::lemma_div_pos_is_pos(distance * 10_000, radius);
}

/// The density kernel never returns a negative value.
pub proof fn lemma_density_kernel_v_nonneg(radius: int, distance: int)
    requires
        0 < radius,
    ensures
        density_kernel_v(radius, distance) >= 0,
{
    if distance <= radius {
        let a = kernel_ratio_v(radius, distance);
        vstd::arithmetic::div_mod::lemma_div_pos_is_pos((radius - distance) * 10_000, radius);
        lemma_mul_bounds(678_000_000 * a, 678_000_000 * a, a, a);
        lemma_mul_bounds(678_000_000 * a * a, 678_000_000 * a * a, 10_000, 10_000);
        lemma_mul_pos(355 * radius, radius);
        vstd::arithmetic::div_mod::lemma_div_pos_is_pos(
            678_000_000 * a * a * 10_000,
            355 * radius * radius,
        );
    }
}

/// The near-density kernel never returns a negative value.
pub proof fn lemma_near_density_kernel_v_nonneg(radius: int, distance: int)
    requires
        0 < radius,
    ensures
        near_density_kernel_v(radius, distance) >= 0,
{
    if distance <= radius {
        let a = kernel_ratio_v(radius, distance);
        vstd::arithmetic::div_mod::lemma_div_pos_is_pos((radius - distance) * 10_000, radius);
        lemma_mul_bounds(1_130_000_000 * a, 1_130_000_000 * a, a, a);
        lemma_mul_bounds(1_130_000_000 * a * a, 1_130_000_000 * a * a, a, a);
        lemma_mul_pos(355 * radius, radius);
        vstd::arithmetic::div_mod::lemma_div_pos_is_pos(
            1_130_000_000 * a * a * a,
            355 * radius * radius,
        );
    }
}

/// `pressure = pressureMultiplier * (density - targetDensity)`.
pub open spec fn pressure_v(density: int, target_density: int, pressure_multiplier: int) -> int {
    fx_mul_v(pressure_multiplier, fx_sub_v(density, target_density))
}

/// `nearPressure = nearPressureMultiplier * nearDensity`.
pub open spec fn near_pressure_v(near_density: int, near_pressure_multiplier: int) -> int {
    fx_mul_v(near_pressure_multiplier, near_density)
}

/// Arithmetic mean of the two particles' pressures.
pub open spec fn shared_pressure_v(
    density_a: int,
    density_b: int,
    target_density: int,
    pressure_multiplier: int,
) -> int {
    fx_half_v(
        fx_add_v(
            pressure_v(density_a, target_density, pressure_multiplier),
            pressure_v(density_b, target_density, pressure_multiplier),
        ),
    )
}

/// Arithmetic mean of the two particles' near-pressures.
pub open spec fn shared_near_pressure_v(
    near_density_a: int,
    near_density_b: int,
    near_pressure_multiplier: int,
) -> int {
    fx_half_v(
        fx_add_v(
            near_pressure_v(near_density_a, near_pressure_multiplier),
            near_pressure_v(near_density_b, near_pressure_multiplier),
        ),
    )
}

/// Density contributed by the first `k` neighbours of a point.
pub open spec fn density_sum_v(
    point: Vec2,
    neighbors: Seq<usize>,
    particles: Seq<Particle>,
    mass: int,
    radius: int,
    k: int,
) -> int
    decreases k,
{
    if k <= 0 {
        0
    } else {
        let other = particles[neighbors[k - 1] as int];
        fx_add_v(
            density_sum_v(point, neighbors, particles, mass, radius, k - 1),
            fx_mul_v(mass, density_kernel_v(radius, dist_v(point, other.predicted_position))),
        )
    }
}

/// Density contributed by all listed neighbours of a point.
pub open spec fn density_from_neighbors_v(
    point: Vec2,
    neighbors: Seq<usize>,
    particles: Seq<Particle>,
    mass: int,
    radius: int,
) -> int {
    density_sum_v(point, neighbors, particles, mass, radius, neighbors.len() as int)
}

/// Near-density contributed by the first `k` neighbours of a point.
pub open spec fn near_density_sum_v(
    point: Vec2,
    neighbors: Seq<usize>,
    particles: Seq<Particle>,
    mass: int,
    radius: int,
    k: int,
) -> int
    decreases k,
{
    if k <= 0 {
        0
    } else {
        let other = particles[neighbors[k - 1] as int];
        fx_add_v(
            near_density_sum_v(point, neighbors, particles, mass, radius, k - 1),
            fx_mul_v(mass, near_density_kernel_v(radius, dist_v(point, other.predicted_position))),
        )
    }
}

/// A density sum over any neighbour list is non-negative: the kernels are
/// non-negative and so is the mass.
pub proof fn lemma_density_sum_nonneg(
    point: Vec2,
    neighbors: Seq<usize>,
    particles: Seq<Particle>,
    mass: int,
    radius: int,
    k: int,
)
    requires
        mass >= 0,
        0 < radius,
    ensures
        density_sum_v(point, neighbors, particles, mass, radius, k) >= 0,
    decreases k,
{
    if k > 0 {
        lemma_density_sum_nonneg(point, neighbors, particles, mass, radius, k - 1);
        let other = particles[neighbors[k - 1] as int];
        let d = dist_v(point, other.predicted_position);
        lemma_density_kernel_v_nonneg(radius, d);
        crate::fixed::lemma_fx_mul_nonneg(mass, density_kernel_v(radius, d));
    }
}

/// A near-density sum over any neighbour list is non-negative.
pub proof fn lemma_near_density_sum_nonneg(
    point: Vec2,
    neighbors: Seq<usize>,
    particles: Seq<Particle>,
    mass: int,
    radius: int,
    k: int,
)
    requires
        mass >= 0,
        0 < radius,
    ensures
        near_density_sum_v(point, neighbors, particles, mass, radius, k) >= 0,
    decreases k,
{
    if k > 0 {
        lemma_near_density_sum_nonneg(point, neighbors, particles, mass, radius, k - 1);
        let other = particles[neighbors[k - 1] as int];
        let d = dist_v(point, other.predicted_position);
        lemma_near_density_kernel_v_nonneg(radius, d);
        crate::fixed::lemma_fx_mul_nonneg(mass, near_density_kernel_v(radius, d));
    }
}

/// The density sums only read the neighbours' predicted positions: two
/// particle sequences that agree on those give the same sums.
pub proof fn lemma_density_sum_congruent(
    point: Vec2,
    neighbors: Seq<usize>,
    pa: Seq<Particle>,
    pb: Seq<Particle>,
    mass: int,
    radius: int,
    k: int,
)
    requires
        pa.len() == pb.len(),
        forall|j: int|
            0 <= j < pa.len() ==> (#[trigger] pa[j]).predicted_position
                == pb[j].predicted_position,
        forall|t: int| 0 <= t < neighbors.len() ==> (#[trigger] neighbors[t]) < pa.len(),
        k <= neighbors.len(),
    ensures
        density_sum_v(point, neighbors, pa, mass, radius, k) == density_sum_v(
            point,
            neighbors,
            pb,
            mass,
            radius,
            k,
        ),
        near_density_sum_v(point, neighbors, pa, mass, radius, k) == near_density_sum_v(
            point,
            neighbors,
            pb,
            mass,
            radius,
            k,
        ),
    decreases k,
{
    if k > 0 {
        lemma_density_sum_congruent(point, neighbors, pa, pb, mass, radius, k - 1);
        assert(pa[neighbors[k - 1] as int].predicted_position == pb[neighbors[k
            - 1] as int].predicted_position);
    }
}

/// Near-density contributed by all listed neighbours of a point.
pub open spec fn near_density_from_neighbors_v(
    point: Vec2,
    neighbors: Seq<usize>,
    particles: Seq<Particle>,
    mass: int,
    radius: int,
) -> int {
    near_density_sum_v(point, neighbors, particles, mass, radius, neighbors.len() as int)
}

/// Viscosity force accumulated over the first `k` neighbours, before the
/// final scaling by the viscosity strength.
pub open spec fn viscosity_sum_v(
    current: int,
    neighbors: Seq<usize>,
    particles: Seq<Particle>,
    mass: int,
    radius: int,
    k: int,
) -> Vec2
    decreases k,
{
    if k <= 0 {
        Vec2 { x: 0i64, y: 0i64 }
    } else {
        let prev = viscosity_sum_v(current, neighbors, particles, mass, radius, k - 1);
        let j = neighbors[k - 1] as int;
        if j == current {
            prev
        } else {
            let cur = particles[current];
            let other = particles[j];
            let d = dist_v(cur.predicted_position, other.predicted_position);
            let influence = fx_mul_v(viscosity_kernel_v(radius, d), mass);
            vadd_v(prev, vscale_v(vsub_v(other.velocity, cur.velocity), influence))
        }
    }
}

/// Viscosity force on a particle from all listed neighbours.
pub open spec fn viscosity_from_neighbors_v(
    current: int,
    neighbors: Seq<usize>,
    particles: Seq<Particle>,
    mass: int,
    radius: int,
    strength: int,
) -> Vec2 {
    vscale_v(
        viscosity_sum_v(current, neighbors, particles, mass, radius, neighbors.len() as int),
        strength,
    )
}

/// Unit direction (in fixed-point sub-units) from `a` toward `b`, given
/// their positive distance `d`.
pub open spec fn direction_v(a: Vec2, b: Vec2, d: int) -> Vec2
    recommends
        d != 0,
{
    let delta = vsub_v(b, a);
    Vec2 { x: fx_div_v(delta.x as int, d) as i64, y: fx_div_v(delta.y as int, d) as i64 }
}

/// A direction substituted for a degenerate pair: each component within
/// one fixed-point unit.
pub open spec fn is_direction_v(v: Vec2) -> bool {
    -10_000 <= v.x <= 10_000 && -10_000 <= v.y <= 10_000
}

/// Pressure-force contribution of one neighbour already known to lie
/// within the support radius, along the given direction.
pub open spec fn pair_pressure_force_v(
    cur: Particle,
    other: Particle,
    dir: Vec2,
    d: int,
    mass: int,
    radius: int,
    cfg: Config,
) -> Vec2
    recommends
        other.density > 0,
        other.near_density > 0,
{
    let sp = shared_pressure_v(
        other.density as int,
        cur.density as int,
        cfg.target_density as int,
        cfg.pressure_multiplier as int,
    );
    let snp = shared_near_pressure_v(
        other.near_density as int,
        cur.near_density as int,
        cfg.near_pressure_multiplier as int,
    );
    let slope = density_kernel_derivative_v(radius, d);
    let near_slope = near_density_kernel_derivative_v(radius, d);
    let reg = vscale_v(dir, fx_div_v(fx_mul_v(fx_mul_v(sp, slope), mass), other.density as int));
    let nrf = vscale_v(
        dir,
        fx_div_v(fx_mul_v(fx_mul_v(snp, near_slope), mass), other.near_density as int),
    );
    vadd_v(reg, nrf)
}

/// Pressure force accumulated over the first `k` neighbours; `subs[i]`
/// stands in for the direction of a coincident (zero-distance) pair.
pub open spec fn pressure_force_sum_v(
    particles: Seq<Particle>,
    current: int,
    neighbors: Seq<usize>,
    subs: Seq<Vec2>,
    mass: int,
    radius: int,
    cfg: Config,
    k: int,
) -> Vec2
    decreases k,
{
    if k <= 0 {
        Vec2 { x: 0i64, y: 0i64 }
    } else {
        let prev = pressure_force_sum_v(particles, current, neighbors, subs, mass, radius, cfg, k - 1);
        let j = neighbors[k - 1] as int;
        if j == current {
            prev
        } else {
            let cur = particles[current];
            let other = particles[j];
            let d = dist_v(cur.predicted_position, other.predicted_position);
            if d > radius {
                prev
            } else if other.density > 0 && other.near_density > 0 {
                let dir = if d == 0 {
                    subs[k - 1]
                } else {
                    direction_v(cur.predicted_position, other.predicted_position, d)
                };
                vadd_v(prev, pair_pressure_force_v(cur, other, dir, d, mass, radius, cfg))
            } else {
                prev
            }
        }
    }
}

/// Pressure force on a particle from all listed neighbours, for a given
/// assignment of substituted directions.
pub open spec fn pressure_force_v(
    particles: Seq<Particle>,
    current: int,
    neighbors: Seq<usize>,
    subs: Seq<Vec2>,
    mass: int,
    radius: int,
    cfg: Config,
) -> Vec2 {
    pressure_force_sum_v(
        particles,
        current,
        neighbors,
        subs,
        mass,
        radius,
        cfg,
        neighbors.len() as int,
    )
}

/// Whether `subs` witnesses `r` as the pressure force on `current`: one
/// in-range substitute direction per neighbour, used for coincident pairs.
pub open spec fn pressure_force_witness(
    particles: Seq<Particle>,
    current: int,
    neighbors: Seq<usize>,
    subs: Seq<Vec2>,
    mass: int,
    radius: int,
    cfg: Config,
    r: Vec2,
) -> bool {
    &&& subs.len() == neighbors.len()
    &&& forall|i: int| 0 <= i < subs.len() ==> #[trigger] is_direction_v(subs[i])
    &&& r == pressure_force_v(particles, current, neighbors, subs, mass, radius, cfg)
}

/// Whether `r` is the pressure force on `current` for some assignment of
/// substitute directions to coincident pairs.
pub open spec fn is_pressure_force(
    particles: Seq<Particle>,
    current: int,
    neighbors: Seq<usize>,
    mass: int,
    radius: int,
    cfg: Config,
    r: Vec2,
) -> bool {
    exists|subs: Seq<Vec2>|
        #[trigger] pressure_force_witness(particles, current, neighbors, subs, mass, radius, cfg, r)
}

/// The first `k` summands only read the first `k` substituted directions.
proof fn lemma_pressure_force_sum_prefix(
    particles: Seq<Particle>,
    current: int,
    neighbors: Seq<usize>,
    subs1: Seq<Vec2>,
    subs2: Seq<Vec2>,
    mass: int,
    radius: int,
    cfg: Config,
    k: int,
)
    requires
        forall|i: int| 0 <= i < k ==> subs1[i] == subs2[i],
    ensures
        pressure_force_sum_v(particles, current, neighbors, subs1, mass, radius, cfg, k)
            == pressure_force_sum_v(particles, current, neighbors, subs2, mass, radius, cfg, k),
    decreases k,
{
    if k > 0 {
        lemma_pressure_force_sum_prefix(
            particles,
            current,
            neighbors,
            subs1,
            subs2,
            mass,
            radius,
            cfg,
            k - 1,
        );
    }
}

/// Relies on `rand::random`: an unconstrained 64-bit draw from the thread
/// generator; nothing is assumed of the value.
#[verifier::external_body]
pub(crate) fn random_u64() -> u64 {
    rand::random::<u64>()
}

/// Map a random draw to a direction of roughly one fixed-point unit length,
/// for pairs whose positions coincide.
fn random_direction() -> (d: Vec2)
    ensures
        is_direction_v(d),
        d.x != 0 || d.y != 0,
{
    let bits = random_u64();
    let xr: i64 = (bits % 20001) as i64 - 10_000;
    let yr: i64 = ((bits / 20001) % 20001) as i64 - 10_000;
    if xr == 0 && yr == 0 {
        return Vec2 { x: 10_000, y: 0 };
    }
    proof {
        assert(0 <= xr * xr <= 100_000_000 && 0 <= yr * yr <= 100_000_000) by (nonlinear_arith)
            requires
                -10_000 <= xr <= 10_000,
                -10_000 <= yr <= 10_000,
        ;
        assert(xr * xr + yr * yr >= 1) by (nonlinear_arith)
            requires
                xr != 0 || yr != 0,
        ;
    }
    let sq: u128 = ((xr * xr) as u128) + ((yr * yr) as u128);
    let n: u64 = isqrt(sq);
    proof {
        assert(n as int >= 1) by (nonlinear_arith)
            requires
                (sq as int) < (n as int + 1) * (n as int + 1),
                sq as int >= 1,
                n as int >= 0,
        ;
        assert(n as int <= 20_000) by (nonlinear_arith)
            requires
                (n as int) * (n as int) <= 200_000_000,
        ;
        assert(-(n as int) <= xr as int <= n as int) by (nonlinear_arith)
            requires
                (xr as int) * (xr as int) <= sq as int,
                (sq as int) < (n as int + 1) * (n as int + 1),
                0 <= n as int,
        ;
        assert(-(n as int) <= yr as int <= n as int) by (nonlinear_arith)
            requires
                (yr as int) * (yr as int) <= sq as int,
                (sq as int) < (n as int + 1) * (n as int + 1),
                0 <= n as int,
        ;
    }
    let dx = fx_div(xr, n as i64);
    let dy = fx_div(yr, n as i64);
    proof {
        lemma_component_in_unit(xr as int, n as int);
        lemma_component_in_unit(yr as int, n as int);
        if xr >= yr && xr >= -yr || -xr >= yr && -xr >= -yr {
            assert(xr * xr >= yr * yr && xr != 0) by (nonlinear_arith)
                requires
                    xr >= yr && xr >= -yr || -xr >= yr && -xr >= -yr,
                    xr != 0 || yr != 0,
            ;
            lemma_component_nonzero(xr as int, yr as int, n as int, sq as int);
        } else {
            assert(yr * yr >= xr * xr && yr != 0) by (nonlinear_arith)
                requires
                    !(xr >= yr && xr >= -yr || -xr >= yr && -xr >= -yr),
            ;
            lemma_component_nonzero(yr as int, xr as int, n as int, sq as int);
        }
    }
    Vec2 { x: dx, y: dy }
}

/// A component no larger than the root maps into one fixed-point unit.
proof fn lemma_component_in_unit(c: int, n: int)
    requires
        1 <= n,
        -n <= c <= n,
    ensures
        -10_000 <= fx_div_v(c, n) <= 10_000,
{
    assert(-(n * 10_000) <= c * 10_000 <= n * 10_000) by (nonlinear_arith)
        requires
            1 <= n,
            -n <= c <= n,
    ;
    vstd::arithmetic::div_mod::lemma_div_multiples_vanish(10_000, n);
    if c >= 0 {
        vstd::arithmetic::div_mod::lemma_div_is_ordered(c * 10_000, n * 10_000, n);
        vstd::arithmetic::div_mod::lemma_div_pos_is_pos(c * 10_000, n);
        assert(abs_v(c * 10_000) == c * 10_000);
        assert(abs_v(n * 10_000) == n * 10_000) by (nonlinear_arith)
            requires
                1 <= n,
        ;
    } else {
        assert(abs_v(c * 10_000) == (-c) * 10_000) by (nonlinear_arith)
            requires
                c < 0,
        ;
        vstd::arithmetic::div_mod::lemma_div_is_ordered((-c) * 10_000, n * 10_000, n);
        vstd::arithmetic::div_mod::lemma_div_pos_is_pos((-c) * 10_000, n);
    }
}

/// The dominant component of a normalized pair stays non-zero.
proof fn lemma_component_nonzero(big: int, small: int, n: int, sq: int)
    requires
        1 <= n,
        sq == big * big + small * small,
        big * big >= small * small,
        big != 0,
        n * n <= sq,
        -n <= big <= n,
    ensures
        fx_div_v(big, n) != 0,
{
    assert(n <= 2 * abs_v(big)) by (nonlinear_arith)
        requires
            1 <= n,
            n * n <= big * big + small * small,
            big * big >= small * small,
    ;
    assert(abs_v(big) * 10_000 >= n * 5_000) by (nonlinear_arith)
        requires
            n <= 2 * abs_v(big),
    ;
    assert(abs_v(big * 10_000) == abs_v(big) * 10_000) by (nonlinear_arith);
    vstd::arithmetic::div_mod::lemma_div_is_ordered(n * 5_000, abs_v(big) * 10_000, n);
    assert((n * 5_000) / n == 5_000) by {
        vstd::arithmetic::div_mod::lemma_div_multiples_vanish(5_000, n);
    }
    assert(abs_v(big) * 10_000 / n >= 5_000);
}

/// Kernel cutoff: every kernel and every derivative is exactly zero past
/// the support radius, and exactly zero at the radius itself, so none of
/// them changes sign at the cutoff.
pub proof fn lemma_kernel_cutoff(radius: int, distance: int)
    requires
        0 < radius,
        distance >= radius,
    ensures
        density_kernel_v(radius, distance) == 0,
        near_density_kernel_v(radius, distance) == 0,
        viscosity_kernel_v(radius, distance) == 0,
        density_kernel_derivative_v(radius, distance) == 0,
        near_density_kernel_derivative_v(radius, distance) == 0,
{
    if distance == radius {
        let a = kernel_ratio_v(radius, distance);
        assert((radius - distance) * 10_000 == 0);
        vstd::arithmetic::div_mod::lemma_div_of0(radius);
        assert(a == 0);
        lemma_mul_pos(355 * radius, radius);
        vstd::arithmetic::div_mod::lemma_div_of0(355 * radius * radius);
        lemma_mul_pos(355 * radius * radius, radius);
        vstd::arithmetic::div_mod::lemma_div_of0(355 * radius * radius * radius);
        let e = distance_ratio_v(radius, distance);
        vstd::arithmetic::div_mod::lemma_div_multiples_vanish(10_000, radius);
        assert(radius * 10_000 == distance * 10_000);
        assert(e == 10_000);
    }
}

/// An isolated particle feels no pressure force: every listed neighbour
/// is the particle itself or lies beyond the support radius.
proof fn lemma_isolated_pressure_sum(
    particles: Seq<Particle>,
    current: int,
    neighbors: Seq<usize>,
    subs: Seq<Vec2>,
    mass: int,
    radius: int,
    cfg: Config,
    k: int,
)
    requires
        0 <= current < particles.len(),
        k <= neighbors.len(),
        forall|j: int|
            0 <= j < neighbors.len() ==> (#[trigger] neighbors[j]) as int == current || dist_v(
                particles[current].predicted_position,
                particles[neighbors[j] as int].predicted_position,
            ) > radius,
    ensures
        pressure_force_sum_v(particles, current, neighbors, subs, mass, radius, cfg, k) == (Vec2 {
            x: 0i64,
            y: 0i64,
        }),
    decreases k,
{
    if k > 0 {
        lemma_isolated_pressure_sum(
            particles,
            current,
            neighbors,
            subs,
            mass,
            radius,
            cfg,
            k - 1,
        );
    }
}

/// An isolated particle feels no pressure force.
pub proof fn lemma_isolated_pressure_force(
    particles: Seq<Particle>,
    current: int,
    neighbors: Seq<usize>,
    subs: Seq<Vec2>,
    mass: int,
    radius: int,
    cfg: Config,
)
    requires
        0 <= current < particles.len(),
        forall|j: int|
            0 <= j < neighbors.len() ==> (#[trigger] neighbors[j]) as int == current || dist_v(
                particles[current].predicted_position,
                particles[neighbors[j] as int].predicted_position,
            ) > radius,
    ensures
        pressure_force_v(particles, current, neighbors, subs, mass, radius, cfg) == (Vec2 {
            x: 0i64,
            y: 0i64,
        }),
{
    lemma_isolated_pressure_sum(
        particles,
        current,
        neighbors,
        subs,
        mass,
        radius,
        cfg,
        neighbors.len() as int,
    );
}

/// An isolated particle feels no viscosity force: beyond the radius the
/// viscosity kernel vanishes, so every velocity difference is weighted by
/// zero.
proof fn lemma_isolated_viscosity_sum(
    particles: Seq<Particle>,
    current: int,
    neighbors: Seq<usize>,
    mass: int,
    radius: int,
    k: int,
)
    requires
        0 <= current < particles.len(),
        0 < radius,
        k <= neighbors.len(),
        forall|j: int|
            0 <= j < neighbors.len() ==> (#[trigger] neighbors[j]) as int == current || dist_v(
                particles[current].predicted_position,
                particles[neighbors[j] as int].predicted_position,
            ) > radius,
    ensures
        viscosity_sum_v(current, neighbors, particles, mass, radius, k)
            == (Vec2 { x: 0i64, y: 0i64 }),
    decreases k,
{
    if k > 0 {
        lemma_isolated_viscosity_sum(particles, current, neighbors, mass, radius, k - 1);
        let j = neighbors[k - 1] as int;
        if j != current {
            let cur = particles[current];
            let other = particles[j];
            let d = dist_v(cur.predicted_position, other.predicted_position);
            assert(viscosity_kernel_v(radius, d) == 0);
            vstd::arithmetic::div_mod::lemma_div_of0(10_000);
            let influence = fx_mul_v(viscosity_kernel_v(radius, d), mass);
            assert(influence == 0);
            let diff = vsub_v(other.velocity, cur.velocity);
            assert(vscale_v(diff, influence) == (Vec2 { x: 0i64, y: 0i64 }));
        }
    }
}

/// An isolated particle feels no viscosity force.
pub proof fn lemma_isolated_viscosity_force(
    particles: Seq<Particle>,
    current: int,
    neighbors: Seq<usize>,
    mass: int,
    radius: int,
    strength: int,
)
    requires
        0 <= current < particles.len(),
        0 < radius,
        forall|j: int|
            0 <= j < neighbors.len() ==> (#[trigger] neighbors[j]) as int == current || dist_v(
                particles[current].predicted_position,
                particles[neighbors[j] as int].predicted_position,
            ) > radius,
    ensures
        viscosity_from_neighbors_v(current, neighbors, particles, mass, radius, strength) == (Vec2 {
            x: 0i64,
            y: 0i64,
        }),
{
    lemma_isolated_viscosity_sum(
        particles,
        current,
        neighbors,
        mass,
        radius,
        neighbors.len() as int,
    );
    vstd::arithmetic::div_mod::lemma_div_of0(10_000);
}

/// An isolated particle's density is its own self-contribution alone: its
/// neighbour list holds only itself, at distance zero.
pub proof fn lemma_isolated_density(particles: Seq<Particle>, current: usize, mass: int, radius: int)
    requires
        (current as int) < particles.len(),
        0 < radius,
    ensures
        density_from_neighbors_v(
            particles[current as int].predicted_position,
            seq![current],
            particles,
            mass,
            radius,
        ) == fx_mul_v(mass, density_kernel_v(radius, 0)),
        near_density_from_neighbors_v(
            particles[current as int].predicted_position,
            seq![current],
            particles,
            mass,
            radius,
        ) == fx_mul_v(mass, near_density_kernel_v(radius, 0)),
{
    let p = particles[current as int].predicted_position;
    assert(0 * 0 == 0 && (0 + 1) * (0 + 1) == 1) by (nonlinear_arith);
    lemma_sqrt_floor_is(0, 0);
    assert(dist_v(p, p) == 0);
    reveal_with_fuel(density_sum_v, 3);
    reveal_with_fuel(near_density_sum_v, 3);
    assert(seq![current].len() == 1);
    assert(seq![current][0] == current);
}

/// For two particles alone, each one's neighbour list is the pair itself,
/// and the density pass gives both the same density: the self term plus
/// the kernel at their (symmetric) distance.
pub proof fn lemma_two_particle_density_equal(a: Particle, b: Particle, mass: int, radius: int)
    ensures
        density_from_neighbors_v(
            a.predicted_position,
            seq![0usize, 1usize],
            seq![a, b],
            mass,
            radius,
        ) == density_from_neighbors_v(
            b.predicted_position,
            seq![0usize, 1usize],
            seq![a, b],
            mass,
            radius,
        ),
        near_density_from_neighbors_v(
            a.predicted_position,
            seq![0usize, 1usize],
            seq![a, b],
            mass,
            radius,
        ) == near_density_from_neighbors_v(
            b.predicted_position,
            seq![0usize, 1usize],
            seq![a, b],
            mass,
            radius,
        ),
{
    let particles = seq![a, b];
    let neighbors = seq![0usize, 1usize];
    reveal_with_fuel(density_sum_v, 4);
    reveal_with_fuel(near_density_sum_v, 4);
    assert(neighbors[0] == 0usize && neighbors[1] == 1usize && neighbors.len() == 2);
    assert(particles[0] == a && particles[1] == b);
    assert(0 * 0 == 0 && (0 + 1) * (0 + 1) == 1) by (nonlinear_arith);
    lemma_sqrt_floor_is(0, 0);
    assert(dist_v(a.predicted_position, a.predicted_position) == 0);
    assert(dist_v(b.predicted_position, b.predicted_position) == 0);
    lemma_dist_symmetric(a.predicted_position, b.predicted_position);
}

/// The unit direction between two distinct points flips sign when the
/// endpoints are swapped.
pub proof fn lemma_direction_antisymmetric(a: Vec2, b: Vec2, d: int)
    requires
        d != 0,
    ensures
        direction_v(b, a, d) == vneg_v(direction_v(a, b, d)),
{
    let dxb = fx_sub_v(b.x as int, a.x as int);
    let dyb = fx_sub_v(b.y as int, a.y as int);
    lemma_sat_odd((b.x as int) - (a.x as int));
    lemma_sat_odd((b.y as int) - (a.y as int));
    assert(fx_sub_v(a.x as int, b.x as int) == -dxb);
    assert(fx_sub_v(a.y as int, b.y as int) == -dyb);
    assert((-dxb) * 10_000 == -(dxb * 10_000)) by (nonlinear_arith);
    assert((-dyb) * 10_000 == -(dyb * 10_000)) by (nonlinear_arith);
    lemma_tdiv_odd(dxb * 10_000, d);
    lemma_tdiv_odd(dyb * 10_000, d);
    lemma_sat_odd(crate::fixed::tdiv(dxb * 10_000, d));
    lemma_sat_odd(crate::fixed::tdiv(dyb * 10_000, d));
}

/// Swapping the particles of a pair with equal densities negates the
/// pressure-force contribution: momentum-conserving pair interaction.
pub proof fn lemma_pair_force_antisymmetric(
    a: Particle,
    b: Particle,
    dir: Vec2,
    d: int,
    mass: int,
    radius: int,
    cfg: Config,
)
    requires
        a.density == b.density,
        a.near_density == b.near_density,
        vec2_ok(dir),
    ensures
        pair_pressure_force_v(b, a, vneg_v(dir), d, mass, radius, cfg) == vneg_v(
            pair_pressure_force_v(a, b, dir, d, mass, radius, cfg),
        ),
{
    let sp = shared_pressure_v(
        b.density as int,
        a.density as int,
        cfg.target_density as int,
        cfg.pressure_multiplier as int,
    );
    let snp = shared_near_pressure_v(
        b.near_density as int,
        a.near_density as int,
        cfg.near_pressure_multiplier as int,
    );
    let slope = density_kernel_derivative_v(radius, d);
    let near_slope = near_density_kernel_derivative_v(radius, d);
    let s_reg = fx_div_v(fx_mul_v(fx_mul_v(sp, slope), mass), b.density as int);
    let s_near = fx_div_v(fx_mul_v(fx_mul_v(snp, near_slope), mass), b.near_density as int);
    lemma_fx_mul_odd_left(dir.x as int, s_reg);
    lemma_fx_mul_odd_left(dir.y as int, s_reg);
    lemma_fx_mul_odd_left(dir.x as int, s_near);
    lemma_fx_mul_odd_left(dir.y as int, s_near);
    let rx = fx_mul_v(dir.x as int, s_reg);
    let ry = fx_mul_v(dir.y as int, s_reg);
    let nx = fx_mul_v(dir.x as int, s_near);
    let ny = fx_mul_v(dir.y as int, s_near);
    lemma_sat_odd(rx + nx);
    lemma_sat_odd(ry + ny);
}

/// Two particles alone, within radius and at distinct positions, with the
/// densities the density pass gives them (equal, by symmetry): the
/// pressure force each exerts on the other is equal in magnitude and
/// opposite in direction, whatever directions stand in for coincident
/// pairs elsewhere.
pub proof fn lemma_two_particle_pressure_antisymmetric(
    a: Particle,
    b: Particle,
    subs_a: Seq<Vec2>,
    subs_b: Seq<Vec2>,
    mass: int,
    radius: int,
    cfg: Config,
)
    requires
        a.density == b.density,
        a.near_density == b.near_density,
        0 < dist_v(a.predicted_position, b.predicted_position) <= radius,
    ensures
        pressure_force_v(seq![a, b], 0, seq![0usize, 1usize], subs_a, mass, radius, cfg)
            == vneg_v(
            pressure_force_v(seq![a, b], 1, seq![0usize, 1usize], subs_b, mass, radius, cfg),
        ),
{
    let particles = seq![a, b];
    let neighbors = seq![0usize, 1usize];
    let d = dist_v(a.predicted_position, b.predicted_position);
    lemma_dist_symmetric(a.predicted_position, b.predicted_position);
    let zero = Vec2 { x: 0i64, y: 0i64 };
    reveal_with_fuel(pressure_force_sum_v, 4);
    assert(neighbors[0] == 0usize && neighbors[1] == 1usize && neighbors.len() == 2);
    assert(particles[0] == a && particles[1] == b);
    assert(pressure_force_sum_v(particles, 0, neighbors, subs_a, mass, radius, cfg, 1) == zero);
    assert(pressure_force_sum_v(particles, 1, neighbors, subs_b, mass, radius, cfg, 2)
        == pressure_force_sum_v(particles, 1, neighbors, subs_b, mass, radius, cfg, 1));
    if b.density > 0 && b.near_density > 0 {
        let dir = direction_v(a.predicted_position, b.predicted_position, d);
        assert(vec2_ok(dir));
        lemma_direction_antisymmetric(a.predicted_position, b.predicted_position, d);
        lemma_pair_force_antisymmetric(a, b, dir, d, mass, radius, cfg);
        let c_ab = pair_pressure_force_v(a, b, dir, d, mass, radius, cfg);
        let c_ba = pair_pressure_force_v(b, a, vneg_v(dir), d, mass, radius, cfg);
        assert(vadd_v(zero, c_ab) == c_ab);
        assert(vadd_v(zero, c_ba) == c_ba);
    }
}

/// The empty `Physics` namespace holding the kernel and force routines.
pub struct Physics;

impl Physics {
    /// Density kernel value at a given distance.
    pub fn density_kernel(radius: i64, distance: i64) -> (r: i64)
        requires
            0 < radius <= MAX_KERNEL_RADIUS,
            0 <= distance,
        ensures
            r as int == density_kernel_v(radius as int, distance as int),
            r >= 0,
    {
        if distance > radius {
            return 0;
        }
        let a: u64 = ((radius - distance) as u64) * 10_000 / (radius as u64);
        proof {
            lemma_ratio_bounds(radius as int, distance as int);
            lemma_mul_bounds(678_000_000 * a as int, 6_780_000_000_000, a as int, 10_000);
            lemma_mul_bounds(355 * radius as int, 355_000_000_000, radius as int, 1_000_000_000);
            lemma_mul_pos(355 * radius as int, radius as int);
        }
        let num: u128 = 678_000_000 * (a as u128) * (a as u128) * 10_000;
        let den: u128 = 355 * (radius as u128) * (radius as u128);
        let q: u128 = num / den;
        if q >= i64::MAX as u128 {
            i64::MAX
        } else {
            q as i64
        }
    }

    /// Near-density kernel value at a given distance.
    pub fn near_density_kernel(radius: i64, distance: i64) -> (r: i64)
        requires
            0 < radius <= MAX_KERNEL_RADIUS,
            0 <= distance,
        ensures
            r as int == near_density_kernel_v(radius as int, distance as int),
            r >= 0,
    {
        if distance > radius {
            return 0;
        }
        let a: u64 = ((radius - distance) as u64) * 10_000 / (radius as u64);
        proof {
            lemma_ratio_bounds(radius as int, distance as int);
            lemma_mul_bounds(1_130_000_000 * a as int, 11_300_000_000_000, a as int, 10_000);
            lemma_mul_bounds(
                1_130_000_000 * a as int * a as int,
                113_000_000_000_000_000,
                a as int,
                10_000,
            );
            lemma_mul_bounds(355 * radius as int, 355_000_000_000, radius as int, 1_000_000_000);
            lemma_mul_pos(355 * radius as int, radius as int);
        }
        let num: u128 = 1_130_000_000 * (a as u128) * (a as u128) * (a as u128);
        let den: u128 = 355 * (radius as u128) * (radius as u128);
        let q: u128 = num / den;
        if q >= i64::MAX as u128 {
            i64::MAX
        } else {
            q as i64
        }
    }

    /// Viscosity kernel value at a given distance.
    pub fn viscosity_kernel(radius: i64, distance: i64) -> (r: i64)
        requires
            0 < radius <= MAX_KERNEL_RADIUS,
            0 <= distance,
        ensures
            r as int == viscosity_kernel_v(radius as int, distance as int),
            r >= 0,
    {
        if distance > radius {
            return 0;
        }
        let e: u64 = (distance as u64) * 10_000 / (radius as u64);
        proof {
            lemma_ratio_bounds(radius as int, distance as int);
            lemma_mul_bounds(e as int, 10_000, e as int, 10_000);
            vstd::arithmetic::div_mod::lemma_div_is_ordered(
                e as int * e as int,
                100_000_000,
                10_000,
            );
            vstd::arithmetic::div_mod::lemma_div_pos_is_pos(e as int * e as int, 10_000);
        }
        let b: u64 = 10_000 - (e * e) / 10_000;
        proof {
            lemma_mul_bounds(452_000_000 * b as int, 4_520_000_000_000, b as int, 10_000);
            lemma_mul_bounds(
                452_000_000 * b as int * b as int,
                45_200_000_000_000_000,
                b as int,
                10_000,
            );
            lemma_mul_bounds(355 * radius as int, 355_000_000_000, radius as int, 1_000_000_000);
            lemma_mul_pos(355 * radius as int, radius as int);
        }
        let num: u128 = 452_000_000 * (b as u128) * (b as u128) * (b as u128);
        let den: u128 = 355 * (radius as u128) * (radius as u128);
        let q: u128 = num / den;
        if q >= i64::MAX as u128 {
            i64::MAX
        } else {
            q as i64
        }
    }

    /// Slope of the density kernel, used as a scalar magnitude; never
    /// positive inside the support.
    pub fn density_kernel_derivative(radius: i64, distance: i64) -> (r: i64)
        requires
            0 < radius <= MAX_KERNEL_RADIUS,
            0 <= distance,
        ensures
            r as int == density_kernel_derivative_v(radius as int, distance as int),
            r <= 0,
    {
        if distance > radius {
            return 0;
        }
        let a: u64 = ((radius - distance) as u64) * 10_000 / (radius as u64);
        proof {
            lemma_ratio_bounds(radius as int, distance as int);
            lemma_mul_bounds(355 * radius as int, 355_000_000_000, radius as int, 1_000_000_000);
            lemma_mul_pos(355 * radius as int, radius as int);
            lemma_mul_bounds(
                355 * radius as int * radius as int,
                355_000_000_000_000_000_000,
                radius as int,
                1_000_000_000,
            );
            lemma_mul_pos(355 * radius as int * radius as int, radius as int);
        }
        let num: u128 = 1_356_000_000_000 * (a as u128) * 10_000 * 10_000 * 10_000;
        let den: u128 = 355 * (radius as u128) * (radius as u128) * (radius as u128);
        let q: u128 = num / den;
        if q >= i64::MAX as u128 {
            -i64::MAX
        } else {
            -(q as i64)
        }
    }

    /// Slope of the near-density kernel; never positive inside the support.
    pub fn near_density_kernel_derivative(radius: i64, distance: i64) -> (r: i64)
        requires
            0 < radius <= MAX_KERNEL_RADIUS,
            0 <= distance,
        ensures
            r as int == near_density_kernel_derivative_v(radius as int, distance as int),
            r <= 0,
    {
        if distance > radius {
            return 0;
        }
        let a: u64 = ((radius - distance) as u64) * 10_000 / (radius as u64);
        proof {
            lemma_ratio_bounds(radius as int, distance as int);
            lemma_mul_bounds(
                3_390_000_000_000 * a as int,
                33_900_000_000_000_000,
                a as int,
                10_000,
            );
            lemma_mul_bounds(355 * radius as int, 355_000_000_000, radius as int, 1_000_000_000);
            lemma_mul_pos(355 * radius as int, radius as int);
            lemma_mul_bounds(
                355 * radius as int * radius as int,
                355_000_000_000_000_000_000,
                radius as int,
                1_000_000_000,
            );
            lemma_mul_pos(355 * radius as int * radius as int, radius as int);
        }
        let num: u128 = 3_390_000_000_000 * (a as u128) * (a as u128) * 10_000 * 10_000;
        let den: u128 = 355 * (radius as u128) * (radius as u128) * (radius as u128);
        let q: u128 = num / den;
        if q >= i64::MAX as u128 {
            -i64::MAX
        } else {
            -(q as i64)
        }
    }

    /// Convert a particle's density fields into pressure and near-pressure.
    pub fn density_to_pressure(
        density: i64,
        near_density: i64,
        target_density: i64,
        pressure_multiplier: i64,
        near_pressure_multiplier: i64,
    ) -> (r: (i64, i64))
        ensures
            r.0 as int == pressure_v(
                density as int,
                target_density as int,
                pressure_multiplier as int,
            ),
            r.1 as int == near_pressure_v(near_density as int, near_pressure_multiplier as int),
    {
        let density_diff = fx_sub(density, target_density);
        let pressure = fx_mul(pressure_multiplier, density_diff);
        let near_pressure = fx_mul(near_pressure_multiplier, near_density);
        (pressure, near_pressure)
    }

    /// Arithmetic mean of two particles' pressures and near-pressures.
    pub fn calculate_shared_pressure(
        density_a: i64,
        density_b: i64,
        near_density_a: i64,
        near_density_b: i64,
        config: &Config,
    ) -> (r: (i64, i64))
        ensures
            r.0 as int == shared_pressure_v(
                density_a as int,
                density_b as int,
                config.target_density as int,
                config.pressure_multiplier as int,
            ),
            r.1 as int == shared_near_pressure_v(
                near_density_a as int,
                near_density_b as int,
                config.near_pressure_multiplier as int,
            ),
    {
        let pressure_a = Self::density_to_pressure(
            density_a,
            near_density_a,
            config.target_density,
            config.pressure_multiplier,
            config.near_pressure_multiplier,
        );
        let pressure_b = Self::density_to_pressure(
            density_b,
            near_density_b,
            config.target_density,
            config.pressure_multiplier,
            config.near_pressure_multiplier,
        );

        let shared_pressure = fx_half(fx_add(pressure_a.0, pressure_b.0));
        let shared_near_pressure = fx_half(fx_add(pressure_a.1, pressure_b.1));

        (shared_pressure, shared_near_pressure)
    }

    /// Density of the fluid at a point, summed over the listed neighbours.
    pub fn calculate_density_from_neighbors(
        point: Vec2,
        neighbor_particle_indices: &Vec<usize>,
        particles: &Vec<Particle>,
        mass: i64,
        smoothing_radius: i64,
    ) -> (r: i64)
        requires
            0 < smoothing_radius <= MAX_KERNEL_RADIUS,
            forall|i: int|
                0 <= i < neighbor_particle_indices@.len() ==> neighbor_particle_indices@[i]
                    < particles@.len(),
        ensures
            r as int == density_from_neighbors_v(
                point,
                neighbor_particle_indices@,
                particles@,
                mass as int,
                smoothing_radius as int,
            ),
    {
        let mut density: i64 = 0;
        let mut k: usize = 0;
        while k < neighbor_particle_indices.len()
            invariant
                0 < smoothing_radius <= MAX_KERNEL_RADIUS,
                forall|i: int|
                    0 <= i < neighbor_particle_indices@.len() ==> neighbor_particle_indices@[i]
                        < particles@.len(),
                k <= neighbor_particle_indices@.len(),
                density as int == density_sum_v(
                    point,
                    neighbor_particle_indices@,
                    particles@,
                    mass as int,
                    smoothing_radius as int,
                    k as int,
                ),
            decreases neighbor_particle_indices@.len() - k,
        {
            let j = neighbor_particle_indices[k];
            let d = point.distance(particles[j].predicted_position);
            density = fx_add(density, fx_mul(mass, Self::density_kernel(smoothing_radius, d)));
            k = k + 1;
        }
        density
    }

    /// Near-density of the fluid at a point, summed over the listed
    /// neighbours.
    pub fn calculate_near_density_from_neighbors(
        point: Vec2,
        neighbor_particle_indices: &Vec<usize>,
        particles: &Vec<Particle>,
        mass: i64,
        smoothing_radius: i64,
    ) -> (r: i64)
        requires
            0 < smoothing_radius <= MAX_KERNEL_RADIUS,
            forall|i: int|
                0 <= i < neighbor_particle_indices@.len() ==> neighbor_particle_indices@[i]
                    < particles@.len(),
        ensures
            r as int == near_density_from_neighbors_v(
                point,
                neighbor_particle_indices@,
                particles@,
                mass as int,
                smoothing_radius as int,
            ),
    {
        let mut near_density: i64 = 0;
        let mut k: usize = 0;
        while k < neighbor_particle_indices.len()
            invariant
                0 < smoothing_radius <= MAX_KERNEL_RADIUS,
                forall|i: int|
                    0 <= i < neighbor_particle_indices@.len() ==> neighbor_particle_indices@[i]
                        < particles@.len(),
                k <= neighbor_particle_indices@.len(),
                near_density as int == near_density_sum_v(
                    point,
                    neighbor_particle_indices@,
                    particles@,
                    mass as int,
                    smoothing_radius as int,
                    k as int,
                ),
            decreases neighbor_particle_indices@.len() - k,
        {
            let j = neighbor_particle_indices[k];
            let d = point.distance(particles[j].predicted_position);
            near_density = fx_add(
                near_density,
                fx_mul(mass, Self::near_density_kernel(smoothing_radius, d)),
            );
            k = k + 1;
        }
        near_density
    }

    /// Viscosity force on one particle: velocity differences to each
    /// neighbour, weighted by the viscosity kernel and scaled by the
    /// viscosity strength.
    pub fn calculate_viscosity_from_neighbors(
        current_index: usize,
        neighbor_indices: &Vec<usize>,
        particles: &Vec<Particle>,
        mass: i64,
        smoothing_radius: i64,
        viscosity_strength: i64,
    ) -> (r: Vec2)
        requires
            current_index < particles@.len(),
            0 < smoothing_radius <= MAX_KERNEL_RADIUS,
            forall|i: int|
                0 <= i < neighbor_indices@.len() ==> neighbor_indices@[i] < particles@.len(),
        ensures
            r == viscosity_from_neighbors_v(
                current_index as int,
                neighbor_indices@,
                particles@,
                mass as int,
                smoothing_radius as int,
                viscosity_strength as int,
            ),
    {
        let mut viscosity_force = Vec2::zero();
        let current_particle_pos = particles[current_index].predicted_position;
        let current_velocity = particles[current_index].velocity;
        let mut k: usize = 0;
        while k < neighbor_indices.len()
            invariant
                current_index < particles@.len(),
                0 < smoothing_radius <= MAX_KERNEL_RADIUS,
                forall|i: int|
                    0 <= i < neighbor_indices@.len() ==> neighbor_indices@[i] < particles@.len(),
                k <= neighbor_indices@.len(),
                current_particle_pos == particles@[current_index as int].predicted_position,
                current_velocity == particles@[current_index as int].velocity,
                viscosity_force == viscosity_sum_v(
                    current_index as int,
                    neighbor_indices@,
                    particles@,
                    mass as int,
                    smoothing_radius as int,
                    k as int,
                ),
            decreases neighbor_indices@.len() - k,
        {
            let other_index = neighbor_indices[k];
            if other_index != current_index {
                let other = particles[other_index];
                let d = current_particle_pos.distance(other.predicted_position);
                let influence = fx_mul(Self::viscosity_kernel(smoothing_radius, d), mass);
                viscosity_force = viscosity_force.add(
                    other.velocity.sub(current_velocity).scale(influence),
                );
            }
            k = k + 1;
        }
        viscosity_force.scale(viscosity_strength)
    }

    /// Pressure force on one particle from its neighbours: shared pressure
    /// and near-pressure along the pair direction, weighted by the kernel
    /// slopes. A coincident pair gets a random substitute direction; pairs
    /// beyond the cutoff and neighbours with non-positive density are
    /// skipped.
    pub fn calculate_pressure_force_on_particle(
        current_index: usize,
        neighbor_indices: &Vec<usize>,
        particles: &Vec<Particle>,
        mass: i64,
        radius: i64,
        config: &Config,
    ) -> (r: Vec2)
        requires
            current_index < particles@.len(),
            0 < radius <= MAX_KERNEL_RADIUS,
            forall|i: int|
                0 <= i < neighbor_indices@.len() ==> neighbor_indices@[i] < particles@.len(),
        ensures
            is_pressure_force(
                particles@,
                current_index as int,
                neighbor_indices@,
                mass as int,
                radius as int,
                *config,
                r,
            ),
    {
        let mut pressure_force = Vec2::zero();
        let current_particle = particles[current_index];
        let current_particle_pos = current_particle.predicted_position;
        let ghost mut subs: Seq<Vec2> = Seq::empty();

        let mut k: usize = 0;
        while k < neighbor_indices.len()
            invariant
                current_index < particles@.len(),
                0 < radius <= MAX_KERNEL_RADIUS,
                forall|i: int|
                    0 <= i < neighbor_indices@.len() ==> neighbor_indices@[i] < particles@.len(),
                k <= neighbor_indices@.len(),
                current_particle == particles@[current_index as int],
                current_particle_pos == current_particle.predicted_position,
                subs.len() == k as int,
                forall|i: int| 0 <= i < subs.len() ==> #[trigger] is_direction_v(subs[i]),
                pressure_force == pressure_force_sum_v(
                    particles@,
                    current_index as int,
                    neighbor_indices@,
                    subs,
                    mass as int,
                    radius as int,
                    *config,
                    k as int,
                ),
            decreases neighbor_indices@.len() - k,
        {
            let ghost subs_before = subs;
            let other_index = neighbor_indices[k];
            if other_index != current_index {
                let other = particles[other_index];
                let distance = current_particle_pos.distance(other.predicted_position);
                if distance <= radius {
                    let direction: Vec2;
                    if distance == 0 {
                        direction = random_direction();
                        proof {
                            subs = subs.push(direction);
                        }
                    } else {
                        direction = Vec2 {
                            x: fx_div(fx_sub(other.predicted_position.x, current_particle_pos.x),
                                distance),
                            y: fx_div(fx_sub(other.predicted_position.y, current_particle_pos.y),
                                distance),
                        };
                        proof {
                            subs = subs.push(Vec2 { x: 0i64, y: 0i64 });
                        }
                    }

                    let density_slope = Self::density_kernel_derivative(radius, distance);
                    let near_density_slope = Self::near_density_kernel_derivative(
                        radius,
                        distance,
                    );

                    let (shared_pressure, shared_near_pressure) = Self::calculate_shared_pressure(
                        other.density,
                        current_particle.density,
                        other.near_density,
                        current_particle.near_density,
                        config,
                    );

                    if other.density > 0 && other.near_density > 0 {
                        let regular_scale = fx_div(
                            fx_mul(fx_mul(shared_pressure, density_slope), mass),
                            other.density,
                        );
                        let near_scale = fx_div(
                            fx_mul(fx_mul(shared_near_pressure, near_density_slope), mass),
                            other.near_density,
                        );
                        let regular_pressure_force = direction.scale(regular_scale);
                        let near_pressure_force = direction.scale(near_scale);
                        pressure_force = pressure_force.add(
                            regular_pressure_force.add(near_pressure_force),
                        );
                    }
                } else {
                    proof {
                        subs = subs.push(Vec2 { x: 0i64, y: 0i64 });
                    }
                }
            } else {
                proof {
                    subs = subs.push(Vec2 { x: 0i64, y: 0i64 });
                }
            }
            proof {
                lemma_pressure_force_sum_prefix(
                    particles@,
                    current_index as int,
                    neighbor_indices@,
                    subs_before,
                    subs,
                    mass as int,
                    radius as int,
                    *config,
                    k as int,
                );
            }
            k = k + 1;
        }
        proof {
            assert(pressure_force_witness(
                particles@,
                current_index as int,
                neighbor_indices@,
                subs,
                mass as int,
                radius as int,
                *config,
                pressure_force,
            ));
        }
        pressure_force
    }
}

} // verus!
