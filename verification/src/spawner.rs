//! Rate-limited particle injection at a strip below the top edge of the
//! boundary, and the one-time bulk grid placement.

use vstd::prelude::*;

use crate::boundary::Boundary;
use crate::config::{Config, FluidSpawnMode};
use crate::fixed::{
    fx_add_v, fx_div_v, fx_half_v, fx_mul_v, fx_scale_v, fx_sub_v, lemma_mul_bounds,
    lemma_sqrt_floor_is, lemma_tdiv_nonneg, sqrt_floor, fx_add, fx_div, fx_half, fx_mul, fx_scale,
    fx_sub, isqrt, Vec2, FX_MAX,
};
use crate::particle::Particle;
use crate::physics::random_u64;

verus! {

/// Coordinates the spawner works with stay inside this bound, so that the
/// random placement arithmetic cannot overflow.
pub const SPAWN_COORD_LIMIT: i64 = 2_000_000_000_000;

/// Countdown timer state for continuous particle injection.
pub struct ParticleSpawner {
    pub time_to_next_spawn: i64,
    pub spawn_x_min: i64,
    pub spawn_x_max: i64,
    pub spawn_y: i64,
    pub flow_rate_interval: i64,
}

/// Spec mirror of `ParticleSpawner::new`.
pub open spec fn spawner_from_v(config: Config, boundary: Boundary) -> ParticleSpawner {
    let padding = fx_mul_v(config.particle_radius as int, 11_000);
    let spawn_y = fx_add_v(boundary.pos.y as int, padding);
    let max_possible_spawn_width = fx_sub_v(
        boundary.width as int,
        fx_add_v(padding, padding),
    );
    let capped = if config.flow_spawn_width as int <= max_possible_spawn_width {
        config.flow_spawn_width as int
    } else {
        max_possible_spawn_width
    };
    let effective_spawn_width = if capped >= 0 {
        capped
    } else {
        0
    };
    let center_x = fx_add_v(boundary.pos.x as int, fx_half_v(boundary.width as int));
    let spawn_x_start = fx_sub_v(center_x, fx_half_v(effective_spawn_width));
    let spawn_x_end = fx_add_v(center_x, fx_half_v(effective_spawn_width));
    let min_boundary_x = fx_add_v(boundary.pos.x as int, padding);
    let max_boundary_x = fx_sub_v(fx_add_v(boundary.pos.x as int, boundary.width as int), padding);
    ParticleSpawner {
        time_to_next_spawn: 0,
        spawn_x_min: (if spawn_x_start >= min_boundary_x {
            spawn_x_start
        } else {
            min_boundary_x
        }) as i64,
        spawn_x_max: (if spawn_x_end <= max_boundary_x {
            spawn_x_end
        } else {
            max_boundary_x
        }) as i64,
        spawn_y: spawn_y as i64,
        flow_rate_interval: (if config.flow_spawn_rate > 0 {
            fx_div_v(10_000, config.flow_spawn_rate as int)
        } else {
            FX_MAX as int
        }) as i64,
    }
}

/// How many particles one flow update injects and the timer it leaves
/// behind, starting from an already-decremented timer `t` with `room`
/// spawn slots left below the cap.
pub open spec fn flow_spawn_result_v(t: int, interval: int, room: int) -> (int, int)
    decreases room,
{
    if room <= 0 || t > 0 {
        (0, t)
    } else {
        let rec = flow_spawn_result_v(fx_add_v(t, interval), interval, room - 1);
        (rec.0 + 1, rec.1)
    }
}

/// A flow update never injects more particles than it has room for.
pub proof fn lemma_flow_spawn_count_bounds(t: int, interval: int, room: int)
    ensures
        0 <= flow_spawn_result_v(t, interval, room).0 <= (if room >= 0 {
            room
        } else {
            0
        }),
    decreases room,
{
    if !(room <= 0 || t > 0) {
        lemma_flow_spawn_count_bounds(fx_add_v(t, interval), interval, room - 1);
    }
}

/// The exact injection count: starting from a decremented timer `t <= 0`
/// with a positive interval, one flow update injects
/// `min(room, floor(-t / interval) + 1)` particles.
pub proof fn lemma_flow_spawn_exact_count(t: int, interval: int, room: int)
    requires
        -1_000_000_000_000_000 <= t <= 0,
        0 < interval <= FX_MAX,
        0 <= room,
    ensures
        flow_spawn_result_v(t, interval, room).0 == (if room <= (-t) / interval {
            room
        } else {
            (-t) / interval + 1
        }),
    decreases room,
{
    let q = (-t) / interval;
    vstd::arithmetic::div_mod::lemma_div_pos_is_pos(-t, interval);
    if room > 0 {
        assert(fx_add_v(t, interval) == t + interval);
        if t + interval > 0 {
            vstd::arithmetic::div_mod::lemma_basic_div(-t, interval);
            assert(flow_spawn_result_v(t + interval, interval, room - 1).0 == 0);
        } else {
            lemma_flow_spawn_exact_count(t + interval, interval, room - 1);
            vstd::arithmetic::div_mod::lemma_div_minus_one(-t, interval);
            assert((-(t + interval)) / interval == q - 1);
        }
    }
}

/// Whether an update is a no-op: wrong mode, a zero spawn rate, a
/// degenerate spawn window, or a full store.
pub open spec fn flow_spawn_idle_v(
    s: ParticleSpawner,
    config: Config,
    particle_count: int,
) -> bool {
    ||| config.fluid_spawn_mode != FluidSpawnMode::Flow
    ||| s.flow_rate_interval == FX_MAX
    ||| s.spawn_x_min >= s.spawn_x_max
    ||| particle_count >= config.particle_count as int
}

/// What holds of every particle the flow spawner injects.
pub open spec fn spawned_particle_v(p: Particle, s: ParticleSpawner, config: Config) -> bool {
    &&& s.spawn_x_min <= p.position.x < s.spawn_x_max
    &&& p.position.y == s.spawn_y
    &&& p.predicted_position == p.position
    &&& p.velocity == (Vec2 { x: 0i64, y: 0i64 })
    &&& p.acceleration == (Vec2 { x: 0i64, y: 0i64 })
    &&& p.radius == config.particle_radius
    &&& p.density == 0 && p.near_density == 0
    &&& !p.is_ghost
}

impl ParticleSpawner {
    /// Derive the spawn strip from the configuration and the boundary:
    /// centred horizontally, capped to the boundary width minus a padding
    /// of 1.1 particle radii, just below the top edge.
    pub fn new(config: &Config, boundary: &Boundary) -> (s: ParticleSpawner)
        ensures
            s == spawner_from_v(*config, *boundary),
            s.flow_rate_interval >= 0,
    {
        let padding = fx_mul(config.particle_radius, 11_000);
        let spawn_y = fx_add(boundary.pos.y, padding);

        let max_possible_spawn_width = fx_sub(boundary.width, fx_add(padding, padding));
        let capped = if config.flow_spawn_width <= max_possible_spawn_width {
            config.flow_spawn_width
        } else {
            max_possible_spawn_width
        };
        let effective_spawn_width = if capped >= 0 {
            capped
        } else {
            0
        };

        let center_x = fx_add(boundary.pos.x, fx_half(boundary.width));
        let spawn_x_start = fx_sub(center_x, fx_half(effective_spawn_width));
        let spawn_x_end = fx_add(center_x, fx_half(effective_spawn_width));

        let min_boundary_x = fx_add(boundary.pos.x, padding);
        let max_boundary_x = fx_sub(fx_add(boundary.pos.x, boundary.width), padding);

        ParticleSpawner {
            time_to_next_spawn: 0,
            spawn_x_min: if spawn_x_start >= min_boundary_x {
                spawn_x_start
            } else {
                min_boundary_x
            },
            spawn_x_max: if spawn_x_end <= max_boundary_x {
                spawn_x_end
            } else {
                max_boundary_x
            },
            spawn_y,
            flow_rate_interval: if config.flow_spawn_rate > 0 {
                fx_div(10_000, config.flow_spawn_rate)
            } else {
                FX_MAX
            },
        }
    }

    /// Decrement the countdown by the elapsed time and inject one particle
    /// per elapsed interval at a random x inside the spawn strip, until the
    /// particle cap is reached.
    pub fn update_flow_spawn(
        &mut self,
        particles: &mut Vec<Particle>,
        config: &Config,
        delta_time: i64,
    )
        requires
            old(self).flow_rate_interval >= 0,
            -SPAWN_COORD_LIMIT <= old(self).spawn_x_min,
            old(self).spawn_x_max <= SPAWN_COORD_LIMIT,
            old(particles)@.len() < usize::MAX,
        ensures
            final(self).spawn_x_min == old(self).spawn_x_min,
            final(self).spawn_x_max == old(self).spawn_x_max,
            final(self).spawn_y == old(self).spawn_y,
            final(self).flow_rate_interval == old(self).flow_rate_interval,
            flow_spawn_idle_v(*old(self), *config, old(particles)@.len() as int) ==> *final(self)
                == *old(self) && final(particles)@ == old(particles)@,
            !flow_spawn_idle_v(*old(self), *config, old(particles)@.len() as int) ==> {
                let outcome = flow_spawn_result_v(
                    fx_sub_v(old(self).time_to_next_spawn as int, delta_time as int),
                    old(self).flow_rate_interval as int,
                    config.particle_count as int - old(particles)@.len() as int,
                );
                &&& final(particles)@.len() == old(particles)@.len() + outcome.0
                &&& final(self).time_to_next_spawn == outcome.1
                &&& forall|i: int|
                    0 <= i < old(particles)@.len() ==> final(particles)@[i] == #[trigger] old(
                        particles,
                    )@[i]
                &&& forall|i: int|
                    old(particles)@.len() <= i < final(particles)@.len()
                        ==> spawned_particle_v(#[trigger] final(particles)@[i], *old(self), *config)
            },
    {
        if config.fluid_spawn_mode != FluidSpawnMode::Flow || self.flow_rate_interval == FX_MAX
            || self.spawn_x_min >= self.spawn_x_max
            || particles.len() >= config.particle_count as usize {
            return ;
        }

        self.time_to_next_spawn = fx_sub(self.time_to_next_spawn, delta_time);

        let cap: usize = config.particle_count as usize;
        let ghost t1: int = self.time_to_next_spawn as int;
        let ghost len0: int = particles@.len() as int;
        let ghost interval: int = self.flow_rate_interval as int;

        while self.time_to_next_spawn <= 0 && particles.len() < cap
            invariant
                self.flow_rate_interval == old(self).flow_rate_interval,
                self.spawn_x_min == old(self).spawn_x_min,
                self.spawn_x_max == old(self).spawn_x_max,
                self.spawn_y == old(self).spawn_y,
                self.spawn_x_min < self.spawn_x_max,
                -SPAWN_COORD_LIMIT <= self.spawn_x_min,
                self.spawn_x_max <= SPAWN_COORD_LIMIT,
                interval == self.flow_rate_interval as int,
                interval >= 0,
                cap == config.particle_count as usize,
                0 <= len0 <= particles@.len() <= cap,
                cap <= usize::MAX,
                flow_spawn_result_v(t1, interval, cap - len0) == {
                    let rec = flow_spawn_result_v(
                        self.time_to_next_spawn as int,
                        interval,
                        cap - particles@.len(),
                    );
                    (particles@.len() - len0 + rec.0, rec.1)
                },
                forall|i: int|
                    0 <= i < len0 ==> particles@[i] == #[trigger] old(particles)@[i],
                forall|i: int|
                    len0 <= i < particles@.len() ==> spawned_particle_v(
                        #[trigger] particles@[i],
                        *old(self),
                        *config,
                    ),
            decreases cap - particles@.len(),
        {
            let spawn_x = random_in_range(self.spawn_x_min, self.spawn_x_max);
            let spawn_position = Vec2::new(spawn_x, self.spawn_y);

            let new_particle = Particle::new(spawn_position, config.particle_radius, false);
            particles.push(new_particle);
            proof {
                assert(spawned_particle_v(new_particle, *old(self), *config));
            }

            self.time_to_next_spawn = fx_add(self.time_to_next_spawn, self.flow_rate_interval);
        }
    }
}

/// Round a non-negative fixed-point value to the nearest whole count,
/// clamped to the `u32` range.
pub open spec fn round_count_v(x: int) -> int {
    let q = (x + 5_000) / 10_000;
    if q > u32::MAX as int {
        u32::MAX as int
    } else {
        q
    }
}

/// Rows and columns of the bulk spawn lattice: close to the square root of
/// the particle count corrected by the map's aspect ratio, with degenerate
/// roundings forced up to one row or column.
pub open spec fn grid_rows_cols_v(config: Config, map_width: int, map_height: int) -> (int, int) {
    let count_fixed = config.particle_count as int * 10_000;
    let aspect = if map_height > 0 {
        fx_div_v(map_width, map_height)
    } else {
        10_000
    };
    let rows_sq = if aspect > 0 {
        fx_div_v(count_fixed, aspect)
    } else {
        count_fixed
    };
    let rows_fp = sqrt_floor(rows_sq * 10_000);
    let rows0 = round_count_v(rows_fp);
    let cols_fp = if rows_fp > 0 {
        fx_div_v(count_fixed, rows_fp)
    } else {
        FX_MAX as int
    };
    let cols0 = round_count_v(cols_fp);
    if rows0 == 0 && cols0 == 0 {
        (1, 1)
    } else if rows0 == 0 {
        let c = round_count_v(count_fixed);
        (1, if c >= 1 {
            c
        } else {
            1
        })
    } else if cols0 == 0 {
        let r = round_count_v(count_fixed);
        (if r >= 1 {
            r
        } else {
            1
        }, 1)
    } else {
        (rows0, cols0)
    }
}

/// The `k`-th particle of the bulk spawn lattice, in row-major order, with
/// a spacing of 2.5 particle radii and the lattice centred on the map.
pub open spec fn grid_particle_v(config: Config, map_width: int, map_height: int, k: int)
    -> Particle {
    let layout = grid_rows_cols_v(config, map_width, map_height);
    let spacing = fx_mul_v(config.particle_radius as int, 25_000);
    let left = fx_half_v(fx_sub_v(map_width, fx_scale_v(spacing, layout.1)));
    let top = fx_half_v(fx_sub_v(map_height, fx_scale_v(spacing, layout.0)));
    let x = fx_add_v(left, fx_scale_v(spacing, k % layout.1));
    let y = fx_add_v(top, fx_scale_v(spacing, k / layout.1));
    Particle {
        position: Vec2 { x: x as i64, y: y as i64 },
        predicted_position: Vec2 { x: x as i64, y: y as i64 },
        velocity: Vec2 { x: 0i64, y: 0i64 },
        acceleration: Vec2 { x: 0i64, y: 0i64 },
        radius: config.particle_radius,
        density: 0i64,
        near_density: 0i64,
        is_ghost: false,
    }
}

/// Place the initial particles on a centred lattice whose shape follows
/// the map's aspect ratio, at most `particle_count` of them.
pub fn spawn_particles_grid(config: &Config, map_width: i64, map_height: i64) -> (particles: Vec<
    Particle,
>)
    ensures
        config.particle_count == 0 ==> particles@.len() == 0,
        config.particle_count > 0 ==> {
            let layout = grid_rows_cols_v(*config, map_width as int, map_height as int);
            &&& particles@.len() == (if config.particle_count as int <= layout.0 * layout.1 {
                config.particle_count as int
            } else {
                layout.0 * layout.1
            })
            &&& forall|k: int|
                0 <= k < particles@.len() ==> #[trigger] particles@[k] == grid_particle_v(
                    *config,
                    map_width as int,
                    map_height as int,
                    k,
                )
        },
{
    if config.particle_count == 0 {
        return Vec::new();
    }
    let ghost layout = grid_rows_cols_v(*config, map_width as int, map_height as int);

    let count_fixed: i64 = (config.particle_count as i64) * 10_000;
    let aspect: i64 = if map_height > 0 {
        fx_div(map_width, map_height)
    } else {
        10_000
    };
    let rows_sq: i64 = if aspect > 0 {
        fx_div(count_fixed, aspect)
    } else {
        count_fixed
    };
    proof {
        if aspect > 0 {
            lemma_tdiv_nonneg(count_fixed as int * 10_000, aspect as int);
        }
    }
    let rows_fp: u64 = isqrt((rows_sq as u128) * 10_000);
    proof {
        lemma_sqrt_floor_is(((rows_sq as u128) * 10_000) as int, rows_fp as int);
        assert(rows_fp as int <= 400_000_000_000) by (nonlinear_arith)
            requires
                (rows_fp as int) * (rows_fp as int) <= 92_233_720_368_547_758_070_000,
                0 <= rows_fp as int,
        ;
    }
    let rows_q: u64 = (rows_fp + 5_000) / 10_000;
    let rows0: u32 = if rows_q > u32::MAX as u64 {
        u32::MAX
    } else {
        rows_q as u32
    };
    let cols_fp: i64 = if rows_fp > 0 {
        fx_div(count_fixed, rows_fp as i64)
    } else {
        FX_MAX
    };
    proof {
        if rows_fp > 0 {
            lemma_tdiv_nonneg(count_fixed as int * 10_000, rows_fp as int);
        }
    }
    let cols_q: u64 = ((cols_fp as u64) + 5_000) / 10_000;
    let cols0: u32 = if cols_q > u32::MAX as u64 {
        u32::MAX
    } else {
        cols_q as u32
    };

    let count_q: u64 = ((count_fixed as u64) + 5_000) / 10_000;
    let count_round: u32 = if count_q > u32::MAX as u64 {
        u32::MAX
    } else {
        count_q as u32
    };
    let count_floor: u32 = if count_round >= 1 {
        count_round
    } else {
        1
    };

    let rows: u32;
    let cols: u32;
    if rows0 == 0 && cols0 == 0 {
        rows = 1;
        cols = 1;
    } else if rows0 == 0 {
        rows = 1;
        cols = count_floor;
    } else if cols0 == 0 {
        cols = 1;
        rows = count_floor;
    } else {
        rows = rows0;
        cols = cols0;
    }
    proof {
        assert(rows as int == layout.0 && cols as int == layout.1);
    }

    let spacing = fx_mul(config.particle_radius, 25_000);
    let left_offset = fx_half(fx_sub(map_width, fx_scale(spacing, cols as i64)));
    let top_offset = fx_half(fx_sub(map_height, fx_scale(spacing, rows as i64)));

    proof {
        lemma_mul_bounds(rows as int, 0xffff_ffff, cols as int, 0xffff_ffff);
    }
    let prod: u64 = (rows as u64) * (cols as u64);
    let total: usize = if (config.particle_count as u64) <= prod {
        config.particle_count as usize
    } else {
        prod as usize
    };

    let mut particles: Vec<Particle> = Vec::new();
    let mut k: usize = 0;
    while k < total
        invariant
            1 <= cols,
            cols as int == layout.1,
            rows as int == layout.0,
            layout == grid_rows_cols_v(*config, map_width as int, map_height as int),
            spacing as int == fx_mul_v(config.particle_radius as int, 25_000),
            left_offset as int == fx_half_v(
                fx_sub_v(map_width as int, fx_scale_v(spacing as int, layout.1)),
            ),
            top_offset as int == fx_half_v(
                fx_sub_v(map_height as int, fx_scale_v(spacing as int, layout.0)),
            ),
            k <= total,
            total <= 0xffff_ffff,
            particles@.len() == k as int,
            forall|i: int|
                0 <= i < k as int ==> #[trigger] particles@[i] == grid_particle_v(
                    *config,
                    map_width as int,
                    map_height as int,
                    i,
                ),
        decreases total - k,
    {
        let j: usize = k % (cols as usize);
        let i_row: usize = k / (cols as usize);
        proof {
            assert(j as int == k as int % layout.1);
            assert(i_row as int == k as int / layout.1);
            assert(i_row <= k);
        }
        let x = fx_add(left_offset, fx_scale(spacing, j as i64));
        let y = fx_add(top_offset, fx_scale(spacing, i_row as i64));
        particles.push(Particle::new(Vec2::new(x, y), config.particle_radius, false));
        k = k + 1;
    }
    particles
}

/// A value in `[lo, hi)`, chosen by reducing a random draw modulo the
/// width of the range.
fn random_in_range(lo: i64, hi: i64) -> (r: i64)
    requires
        lo < hi,
        -SPAWN_COORD_LIMIT <= lo,
        hi <= SPAWN_COORD_LIMIT,
    ensures
        lo <= r < hi,
{
    let width: u64 = (hi - lo) as u64;
    let offset: u64 = random_u64() % width;
    lo + (offset as i64)
}

} // verus!
