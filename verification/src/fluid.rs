//! The fluid store: the particle array, the uniform spatial grid over the
//! domain, and the per-frame pipeline
//! Predict -> Rebuild -> Density -> Forces -> Integrate.
//!
//! The grid's cell size equals the smoothing radius, so the 3x3 block of
//! cells around a particle covers its whole support. Cells hold particle
//! indices by predicted position and are fully rebuilt every step. In
//! liquid mode the grid is one cell wider on every side and the outer ring
//! is lined with static ghost particles.

use vstd::prelude::*;

use crate::boundary::Boundary;
use crate::config::{Config, FluidSpawnMode, FluidType, InteractionType};
use crate::fixed::{
    dist_v, fx_add_v, fx_div_v, fx_half_v, fx_mul_v, fx_scale_v, fx_sub_v, tdiv, vadd_v, vdiv_v,
    vneg_v, vscale_v, vsub_v, fx_add, fx_div, fx_half, fx_mul, fx_scale, fx_sub, Vec2,
};
use crate::grid::GridCell;
use crate::particle::{
    ghost_static_v, integrated_v, lemma_predict_static, particle_ok, predicted_v, Particle,
};
use crate::physics::{
    density_from_neighbors_v, direction_v, is_pressure_force, lemma_density_sum_congruent,
    lemma_density_sum_nonneg, lemma_near_density_sum_nonneg, near_density_from_neighbors_v,
    viscosity_from_neighbors_v, Physics,
};
use crate::spawner::{
    flow_spawn_idle_v, flow_spawn_result_v, grid_particle_v, grid_rows_cols_v,
    lemma_flow_spawn_count_bounds, spawn_particles_grid, spawned_particle_v, spawner_from_v,
    ParticleSpawner, SPAWN_COORD_LIMIT,
};

verus! {

/// The simulation state of the fluid itself.
pub struct Fluid {
    pub grid: Vec<GridCell>,
    pub particles: Vec<Particle>,
    pub grid_cols: usize,
    pub grid_rows: usize,
    pub grid_size: i64,
    pub particle_spawner: Option<ParticleSpawner>,
    pub world_grid_origin: Vec2,
}

/// Every index stored in a cell points into the particle array.
pub open spec fn cell_indices_valid(cell: GridCell, n: int) -> bool {
    forall|k: int| 0 <= k < cell.particles@.len() ==> (#[trigger] cell.particles@[k]) < n
}

/// Cell coordinate of a position along one axis: the offset from the grid
/// origin divided by the cell size, clamped into the valid range.
pub open spec fn grid_coord_v(p: int, origin: int, size: int, count: int) -> int
    recommends
        size >= 1,
        count >= 1,
{
    let raw = tdiv(fx_sub_v(p, origin), size);
    if raw < 0 {
        0
    } else if raw > count - 1 {
        count - 1
    } else {
        raw
    }
}

/// A flat cell index is in range whenever its coordinates are.
proof fn lemma_grid_cell_index(gx: int, gy: int, cols: int, rows: int)
    by (nonlinear_arith)
    requires
        0 <= gx < cols,
        0 <= gy < rows,
    ensures
        0 <= gy * cols + gx < cols * rows,
{
}

impl Fluid {
    /// Structural soundness: grid dimensions match the cell vector, every
    /// stored index points into the particle array, every particle's
    /// fields are in the saturating range, ghost particles are static, and
    /// a spawner's strip lies within the coordinate limit.
    pub open spec fn wf(&self) -> bool {
        &&& 1 <= self.grid_cols <= 0x7fff_ffff
        &&& 1 <= self.grid_rows <= 0x7fff_ffff
        &&& self.grid_cols * self.grid_rows == self.grid@.len()
        &&& 1 <= self.grid_size
        &&& forall|c: int|
            0 <= c < self.grid@.len() ==> cell_indices_valid(
                #[trigger] self.grid@[c],
                self.particles@.len() as int,
            )
        &&& forall|i: int|
            0 <= i < self.particles@.len() ==> particle_ok(#[trigger] self.particles@[i])
        &&& forall|i: int|
            0 <= i < self.particles@.len() ==> ghost_static_v(#[trigger] self.particles@[i])
        &&& self.particles@.len() < usize::MAX
        &&& match self.particle_spawner {
            Some(s) => {
                &&& s.flow_rate_interval >= 0
                &&& -SPAWN_COORD_LIMIT <= s.spawn_x_min
                &&& s.spawn_x_max <= SPAWN_COORD_LIMIT
                &&& s.spawn_y > i64::MIN
            },
            None => true,
        }
    }

    /// Cell coordinates of a position.
    pub open spec fn coords_of_v(&self, position: Vec2) -> (int, int) {
        (
            grid_coord_v(
                position.x as int,
                self.world_grid_origin.x as int,
                self.grid_size as int,
                self.grid_cols as int,
            ),
            grid_coord_v(
                position.y as int,
                self.world_grid_origin.y as int,
                self.grid_size as int,
                self.grid_rows as int,
            ),
        )
    }

    /// Contents of the cell at the given coordinates, or empty when the
    /// coordinates fall outside the grid.
    pub open spec fn cell_seq_v(&self, gx: int, gy: int) -> Seq<usize> {
        if 0 <= gx < self.grid_cols && 0 <= gy < self.grid_rows {
            self.grid@[gy * self.grid_cols + gx].particles@
        } else {
            Seq::empty()
        }
    }

    /// Concatenation of the first `m` cells of the 3x3 block centred on
    /// `(gx, gy)`, in row-major order.
    pub open spec fn neighbors_prefix_v(&self, gx: int, gy: int, m: int) -> Seq<usize>
        decreases m,
    {
        if m <= 0 {
            Seq::empty()
        } else {
            self.neighbors_prefix_v(gx, gy, m - 1) + self.cell_seq_v(
                gx + (m - 1) % 3 - 1,
                gy + (m - 1) / 3 - 1,
            )
        }
    }

    /// All particle indices in the 3x3 block of cells centred on `(gx, gy)`.
    pub open spec fn neighbors_v(&self, gx: int, gy: int) -> Seq<usize> {
        self.neighbors_prefix_v(gx, gy, 9)
    }

    /// Flat index of the cell a particle sorts into, by predicted position.
    pub open spec fn cell_of_particle_v(&self, p: Particle) -> int {
        let c = self.coords_of_v(p.predicted_position);
        c.1 * self.grid_cols + c.0
    }

    /// Contents of cell `c` after inserting the first `k` particles in
    /// order: exactly the indices of those particles that sort into `c`.
    pub open spec fn cell_content_v(&self, c: int, k: int) -> Seq<usize>
        decreases k,
    {
        if k <= 0 {
            Seq::empty()
        } else {
            let prev = self.cell_content_v(c, k - 1);
            if self.cell_of_particle_v(self.particles@[k - 1]) == c {
                prev.push((k - 1) as usize)
            } else {
                prev
            }
        }
    }

    /// Clamped cell coordinate along one axis.
    fn grid_axis_coord(p: i64, origin: i64, size: i64, count: usize) -> (g: usize)
        requires
            size >= 1,
            count >= 1,
        ensures
            g as int == grid_coord_v(p as int, origin as int, size as int, count as int),
            g < count,
    {
        let d = fx_sub(p, origin);
        if d <= 0 {
            return 0;
        }
        let q: u64 = (d as u64) / (size as u64);
        if q >= count as u64 {
            count - 1
        } else {
            q as usize
        }
    }

    /// Cell coordinates of a position, clamped into the grid.
    pub fn get_grid_coords(&self, position: Vec2) -> (r: (usize, usize))
        requires
            self.wf(),
        ensures
            r.0 as int == self.coords_of_v(position).0,
            r.1 as int == self.coords_of_v(position).1,
            r.0 < self.grid_cols,
            r.1 < self.grid_rows,
    {
        let gx = Self::grid_axis_coord(
            position.x,
            self.world_grid_origin.x,
            self.grid_size,
            self.grid_cols,
        );
        let gy = Self::grid_axis_coord(
            position.y,
            self.world_grid_origin.y,
            self.grid_size,
            self.grid_rows,
        );
        (gx, gy)
    }

    /// Flat index of the cell at the given coordinates.
    pub fn get_grid_index(&self, grid_x: usize, grid_y: usize) -> (idx: usize)
        requires
            self.wf(),
            grid_x < self.grid_cols,
            grid_y < self.grid_rows,
        ensures
            idx as int == grid_y * self.grid_cols + grid_x,
            idx < self.grid@.len(),
    {
        let n: usize = self.grid.len();
        proof {
            lemma_grid_cell_index(
                grid_x as int,
                grid_y as int,
                self.grid_cols as int,
                self.grid_rows as int,
            );
            assert(self.grid@.len() == n);
        }
        grid_y * self.grid_cols + grid_x
    }

    /// Indices of all particles in the 3x3 block of cells centred on the
    /// given cell, skipping cells outside the grid.
    pub fn get_neighbor_particle_indices(&self, grid_x: usize, grid_y: usize) -> (v: Vec<usize>)
        requires
            self.wf(),
            grid_x < self.grid_cols,
            grid_y < self.grid_rows,
        ensures
            v@ == self.neighbors_v(grid_x as int, grid_y as int),
            forall|k: int| 0 <= k < v@.len() ==> (#[trigger] v@[k]) < self.particles@.len(),
    {
        let mut neighbors: Vec<usize> = Vec::new();
        let mut m: usize = 0;
        while m < 9
            invariant
                self.wf(),
                grid_x < self.grid_cols,
                grid_y < self.grid_rows,
                m <= 9,
                neighbors@ == self.neighbors_prefix_v(grid_x as int, grid_y as int, m as int),
                forall|k: int|
                    0 <= k < neighbors@.len() ==> (#[trigger] neighbors@[k])
                        < self.particles@.len(),
            decreases 9 - m,
        {
            let dx: i64 = (m % 3) as i64 - 1;
            let dy: i64 = (m / 3) as i64 - 1;
            let ngx: i64 = grid_x as i64 + dx;
            let ngy: i64 = grid_y as i64 + dy;
            let ghost prev = neighbors@;
            if ngx >= 0 && ngx < self.grid_cols as i64 && ngy >= 0 && ngy < self.grid_rows as i64 {
                let idx = self.get_grid_index(ngx as usize, ngy as usize);
                let cell = &self.grid[idx];
                let mut t: usize = 0;
                while t < cell.particles.len()
                    invariant
                        self.wf(),
                        idx < self.grid@.len(),
                        cell == &self.grid@[idx as int],
                        t <= cell.particles@.len(),
                        neighbors@ == prev + cell.particles@.subrange(0, t as int),
                        forall|k: int|
                            0 <= k < prev.len() ==> (#[trigger] prev[k]) < self.particles@.len(),
                    decreases cell.particles@.len() - t,
                {
                    neighbors.push(cell.particles[t]);
                    proof {
                        assert(prev + cell.particles@.subrange(0, t + 1) =~= (prev
                            + cell.particles@.subrange(0, t as int)).push(cell.particles@[t as int]));
                    }
                    t = t + 1;
                }
                proof {
                    assert(cell.particles@.subrange(0, cell.particles@.len() as int)
                        =~= cell.particles@);
                    assert(self.cell_seq_v(ngx as int, ngy as int) == cell.particles@);
                }
            } else {
                proof {
                    assert(self.cell_seq_v(grid_x + dx, grid_y + dy) == Seq::<usize>::empty());
                    assert(prev + Seq::<usize>::empty() =~= prev);
                }
            }
            proof {
                assert(ngx as int == grid_x + (m as int) % 3 - 1);
                assert(ngy as int == grid_y + (m as int) / 3 - 1);
            }
            m = m + 1;
        }
        neighbors
    }

    /// Rebuild the spatial grid from scratch: clear every cell, then
    /// insert every particle (ghosts included) by its predicted position.
    /// Afterwards each cell holds exactly the indices of the particles
    /// that sort into it, in increasing order.
    pub fn update_spatial_grid(&mut self)
        requires
            old(self).wf(),
        ensures
            final(self).wf(),
            final(self).particles == old(self).particles,
            final(self).grid_cols == old(self).grid_cols,
            final(self).grid_rows == old(self).grid_rows,
            final(self).grid_size == old(self).grid_size,
            final(self).world_grid_origin == old(self).world_grid_origin,
            final(self).particle_spawner == old(self).particle_spawner,
            final(self).grid@.len() == old(self).grid@.len(),
            forall|c: int|
                0 <= c < old(self).grid@.len() ==> (#[trigger] final(self).grid@[c]).particles@
                    == old(self).cell_content_v(c, old(self).particles@.len() as int),
            forall|c: int|
                0 <= c < old(self).grid@.len() ==> (#[trigger] final(self).grid@[c]).grid_size
                    == old(self).grid@[c].grid_size && final(self).grid@[c].position == old(
                    self,
                ).grid@[c].position,
    {
        let ncells = self.grid.len();
        let mut c: usize = 0;
        while c < ncells
            invariant
                self.grid@.len() == ncells,
                self.particles == old(self).particles,
                self.grid_cols == old(self).grid_cols,
                self.grid_rows == old(self).grid_rows,
                self.grid_size == old(self).grid_size,
                self.world_grid_origin == old(self).world_grid_origin,
                self.particle_spawner == old(self).particle_spawner,
                old(self).wf(),
                c <= ncells,
                forall|j: int|
                    0 <= j < c ==> (#[trigger] self.grid@[j]).particles@ == Seq::<usize>::empty(),
                forall|j: int|
                    0 <= j < c ==> (#[trigger] self.grid@[j]).grid_size == old(
                        self,
                    ).grid@[j].grid_size && self.grid@[j].position == old(self).grid@[j].position,
                forall|j: int| c <= j < ncells ==> #[trigger] self.grid@[j] == old(self).grid@[j],
            decreases ncells - c,
        {
            let cell = &mut self.grid[c];
            cell.clear();
            c = c + 1;
        }

        let n = self.particles.len();
        let mut i: usize = 0;
        while i < n
            invariant
                self.wf(),
                old(self).wf(),
                n == self.particles@.len(),
                self.grid@.len() == ncells,
                self.particles == old(self).particles,
                self.grid_cols == old(self).grid_cols,
                self.grid_rows == old(self).grid_rows,
                self.grid_size == old(self).grid_size,
                self.world_grid_origin == old(self).world_grid_origin,
                self.particle_spawner == old(self).particle_spawner,
                i <= n,
                forall|j: int|
                    0 <= j < ncells ==> (#[trigger] self.grid@[j]).particles@ == old(
                        self,
                    ).cell_content_v(j, i as int),
                forall|j: int|
                    0 <= j < ncells ==> (#[trigger] self.grid@[j]).grid_size == old(
                        self,
                    ).grid@[j].grid_size && self.grid@[j].position == old(self).grid@[j].position,
            decreases n - i,
        {
            let p = self.particles[i];
            let coords = self.get_grid_coords(p.predicted_position);
            let idx = self.get_grid_index(coords.0, coords.1);
            let ghost before = self.grid@;
            let cell = &mut self.grid[idx];
            cell.add_particle(i);
            proof {
                assert(self.cell_of_particle_v(p) == idx as int);
                assert(old(self).cell_of_particle_v(p) == idx as int);
                assert forall|j: int|
                    0 <= j < ncells implies (#[trigger] self.grid@[j]).particles@ == old(
                    self,
                ).cell_content_v(j, i + 1) by {
                    if j == idx as int {
                        assert(self.grid@[j].particles@ == before[j].particles@.push(i));
                    } else {
                        assert(self.grid@[j] == before[j]);
                    }
                }
            }
            i = i + 1;
        }
    }

    /// The fluid density at particle `i`'s predicted position, gathered
    /// from its 3x3 grid block.
    pub open spec fn density_at_v(&self, i: int, mass: int, radius: int) -> int {
        let p = self.particles@[i];
        let c = self.coords_of_v(p.predicted_position);
        density_from_neighbors_v(
            p.predicted_position,
            self.neighbors_v(c.0, c.1),
            self.particles@,
            mass,
            radius,
        )
    }

    /// The near-density at particle `i`'s predicted position.
    pub open spec fn near_density_at_v(&self, i: int, mass: int, radius: int) -> int {
        let p = self.particles@[i];
        let c = self.coords_of_v(p.predicted_position);
        near_density_from_neighbors_v(
            p.predicted_position,
            self.neighbors_v(c.0, c.1),
            self.particles@,
            mass,
            radius,
        )
    }

    /// Compute both density fields of every particle into a separate
    /// buffer, then commit them. Densities are never negative.
    pub fn update_density(&mut self, config: &Config)
        requires
            old(self).wf(),
            config.wf(),
        ensures
            final(self).wf(),
            final(self).grid == old(self).grid,
            final(self).grid_cols == old(self).grid_cols,
            final(self).grid_rows == old(self).grid_rows,
            final(self).grid_size == old(self).grid_size,
            final(self).world_grid_origin == old(self).world_grid_origin,
            final(self).particle_spawner == old(self).particle_spawner,
            final(self).particles@.len() == old(self).particles@.len(),
            forall|i: int|
                0 <= i < old(self).particles@.len() ==> {
                    let p = #[trigger] final(self).particles@[i];
                    &&& p.density as int == old(self).density_at_v(
                        i,
                        config.mass as int,
                        config.smoothing_radius as int,
                    )
                    &&& p.near_density as int == old(self).near_density_at_v(
                        i,
                        config.mass as int,
                        config.smoothing_radius as int,
                    )
                    &&& p.density >= 0
                    &&& p.near_density >= 0
                    &&& p == (Particle {
                        density: p.density,
                        near_density: p.near_density,
                        ..old(self).particles@[i]
                    })
                },
    {
        let n = self.particles.len();
        let mut densities: Vec<(i64, i64)> = Vec::new();
        let mut i: usize = 0;
        while i < n
            invariant
                *self == *old(self),
                self.wf(),
                config.wf(),
                n == self.particles@.len(),
                i <= n,
                densities@.len() == i as int,
                forall|j: int|
                    0 <= j < i as int ==> {
                        let d = #[trigger] densities@[j];
                        &&& d.0 as int == old(self).density_at_v(
                            j,
                            config.mass as int,
                            config.smoothing_radius as int,
                        )
                        &&& d.1 as int == old(self).near_density_at_v(
                            j,
                            config.mass as int,
                            config.smoothing_radius as int,
                        )
                        &&& d.0 >= 0
                        &&& d.1 >= 0
                    },
            decreases n - i,
        {
            let p = self.particles[i];
            let coords = self.get_grid_coords(p.predicted_position);
            let neighbor_particle_indices = self.get_neighbor_particle_indices(
                coords.0,
                coords.1,
            );
            let density = Physics::calculate_density_from_neighbors(
                p.predicted_position,
                &neighbor_particle_indices,
                &self.particles,
                config.mass,
                config.smoothing_radius,
            );
            let near_density = Physics::calculate_near_density_from_neighbors(
                p.predicted_position,
                &neighbor_particle_indices,
                &self.particles,
                config.mass,
                config.smoothing_radius,
            );
            proof {
                lemma_density_sum_nonneg(
                    p.predicted_position,
                    neighbor_particle_indices@,
                    self.particles@,
                    config.mass as int,
                    config.smoothing_radius as int,
                    neighbor_particle_indices@.len() as int,
                );
                lemma_near_density_sum_nonneg(
                    p.predicted_position,
                    neighbor_particle_indices@,
                    self.particles@,
                    config.mass as int,
                    config.smoothing_radius as int,
                    neighbor_particle_indices@.len() as int,
                );
            }
            densities.push((density, near_density));
            i = i + 1;
        }

        let mut i: usize = 0;
        while i < n
            invariant
                self.wf(),
                n == self.particles@.len(),
                n == old(self).particles@.len(),
                self.grid == old(self).grid,
                self.grid_cols == old(self).grid_cols,
                self.grid_rows == old(self).grid_rows,
                self.grid_size == old(self).grid_size,
                self.world_grid_origin == old(self).world_grid_origin,
                self.particle_spawner == old(self).particle_spawner,
                i <= n,
                densities@.len() == n as int,
                forall|j: int|
                    0 <= j < n as int ==> {
                        let d = #[trigger] densities@[j];
                        &&& d.0 as int == old(self).density_at_v(
                            j,
                            config.mass as int,
                            config.smoothing_radius as int,
                        )
                        &&& d.1 as int == old(self).near_density_at_v(
                            j,
                            config.mass as int,
                            config.smoothing_radius as int,
                        )
                        &&& d.0 >= 0
                        &&& d.1 >= 0
                    },
                forall|j: int|
                    i as int <= j < n as int ==> #[trigger] self.particles@[j] == old(
                        self,
                    ).particles@[j],
                forall|j: int|
                    0 <= j < i as int ==> {
                        let p = #[trigger] self.particles@[j];
                        &&& p.density == densities@[j].0
                        &&& p.near_density == densities@[j].1
                        &&& p == (Particle {
                            density: p.density,
                            near_density: p.near_density,
                            ..old(self).particles@[j]
                        })
                    },
            decreases n - i,
        {
            let d = densities[i];
            let p = self.particles[i];
            self.particles[i] = Particle { density: d.0, near_density: d.1, ..p };
            i = i + 1;
        }
    }
}

/// The falloff of the pointer force at distance `d`: steep
/// `1 - (d / radius)^6` for the liquid, linear `1 - d / radius` otherwise.
/// The sixth power is six chained fixed-point multiplications.
pub open spec fn interaction_falloff_v(d: int, radius: int, fluid_type: FluidType) -> int
    recommends
        radius != 0,
{
    if fluid_type == FluidType::Liquid {
        let nd = fx_div_v(d, radius);
        let t6 = fx_mul_v(
            fx_mul_v(fx_mul_v(fx_mul_v(fx_mul_v(nd, nd), nd), nd), nd),
            nd,
        );
        let c = fx_sub_v(10_000, t6);
        if c >= 0 {
            c
        } else {
            0
        }
    } else {
        fx_sub_v(10_000, fx_div_v(d, radius))
    }
}

/// One particle under the pointer force: a velocity-matching pull (or
/// push) scaled by the falloff, added to the accumulated acceleration.
/// Particles outside the radius or at negligible distance are untouched.
pub open spec fn interact_v(
    p: Particle,
    click_point: Vec2,
    interaction_type: InteractionType,
    cfg: Config,
) -> Particle {
    let d = dist_v(click_point, p.position);
    if 0 < d < cfg.interaction_radius {
        let centre_t = interaction_falloff_v(d, cfg.interaction_radius as int, cfg.fluid_type);
        let dir = direction_v(p.position, click_point, d);
        let base = if interaction_type == InteractionType::Pull {
            dir
        } else {
            vneg_v(dir)
        };
        let acc_change = vscale_v(
            vsub_v(vscale_v(base, cfg.interaction_strength as int), p.velocity),
            centre_t,
        );
        Particle { acceleration: vadd_v(p.acceleration, acc_change), ..p }
    } else {
        p
    }
}

/// Spacing factor of one ghost ring cell: 1.0 along the bottom edge; along
/// the sides a linear interpolation from the start multiplier down to 1.0
/// as the normalized height climbs from `ghostWallStartPercent` to 1.
pub open spec fn ghost_spacing_factor_v(
    r_idx: int,
    extended_rows: int,
    is_on_bottom: bool,
    is_on_side: bool,
    config: Config,
) -> int
    recommends
        extended_rows >= 2,
        0 <= config.ghost_wall_start_percent < 10_000,
{
    if is_on_bottom {
        10_000
    } else if is_on_side {
        let norm_y = (r_idx * 10_000) / (extended_rows - 1);
        let range_norm_y = fx_div_v(
            fx_sub_v(norm_y, config.ghost_wall_start_percent as int),
            fx_sub_v(10_000, config.ghost_wall_start_percent as int),
        );
        let interp_t = if range_norm_y < 0 {
            0
        } else if range_norm_y > 10_000 {
            10_000
        } else {
            range_norm_y
        };
        fx_add_v(
            fx_mul_v(config.start_ghost_spacing_multiplier as int, fx_sub_v(10_000, interp_t)),
            fx_mul_v(10_000, interp_t),
        )
    } else {
        10_000
    }
}

/// Ghost cluster spacing in ring cell `(r_idx, c_idx)`:
/// `particle_radius * target_ghost_spacing * factor`.
pub open spec fn ghost_cell_spacing_v(
    r_idx: int,
    c_idx: int,
    rows: int,
    cols: int,
    config: Config,
) -> int {
    let is_on_bottom = r_idx == rows - 1;
    let is_on_side = c_idx == 0 || c_idx == cols - 1;
    fx_mul_v(
        fx_mul_v(config.particle_radius as int, config.target_ghost_spacing as int),
        ghost_spacing_factor_v(r_idx, rows, is_on_bottom, is_on_side, config),
    )
}

/// Whether ring cell `(r_idx, c_idx)` emits ghosts: on the outer ring but
/// not in the top row, on a side only at or above the start percentage,
/// and with a non-negligible spacing.
pub open spec fn ghost_cell_emits_v(
    r_idx: int,
    c_idx: int,
    rows: int,
    cols: int,
    config: Config,
) -> bool {
    let on_ring = r_idx == 0 || r_idx == rows - 1 || c_idx == 0 || c_idx == cols - 1;
    let is_on_side = c_idx == 0 || c_idx == cols - 1;
    let norm_y = (r_idx * 10_000) / (rows - 1);
    &&& on_ring
    &&& r_idx != 0
    &&& is_on_side ==> norm_y >= config.ghost_wall_start_percent
    &&& ghost_cell_spacing_v(r_idx, c_idx, rows, cols, config) > 10
}

/// Ghosts per axis of an emitting cell: the cell width over the spacing,
/// at least one.
pub open spec fn ghost_cell_count_v(grid_size: int, spacing: int) -> int
    recommends
        spacing > 0,
{
    let q = grid_size / spacing;
    if q < 1 {
        1
    } else {
        q
    }
}

/// The `t`-th ghost of ring cell `(r_idx, c_idx)`: an n x n cluster with
/// the cell's spacing, centred in the cell, filled row-major.
pub open spec fn ghost_cluster_particle_v(
    origin: Vec2,
    grid_size: int,
    r_idx: int,
    c_idx: int,
    rows: int,
    cols: int,
    config: Config,
    t: int,
) -> Particle {
    let spacing = ghost_cell_spacing_v(r_idx, c_idx, rows, cols, config);
    let n = ghost_cell_count_v(grid_size, spacing);
    let margin = fx_half_v(fx_sub_v(grid_size, fx_scale_v(spacing, n)));
    let cell_x = fx_add_v(origin.x as int, fx_scale_v(grid_size, c_idx));
    let cell_y = fx_add_v(origin.y as int, fx_scale_v(grid_size, r_idx));
    let px = fx_add_v(
        fx_add_v(fx_add_v(cell_x, margin), fx_scale_v(spacing, t % n)),
        fx_half_v(spacing),
    );
    let py = fx_add_v(
        fx_add_v(fx_add_v(cell_y, margin), fx_scale_v(spacing, t / n)),
        fx_half_v(spacing),
    );
    Particle {
        position: Vec2 { x: px as i64, y: py as i64 },
        predicted_position: Vec2 { x: px as i64, y: py as i64 },
        velocity: Vec2 { x: 0i64, y: 0i64 },
        acceleration: Vec2 { x: 0i64, y: 0i64 },
        radius: config.particle_radius,
        density: 0i64,
        near_density: 0i64,
        is_ghost: true,
    }
}

/// All ghosts of one ring cell; empty for a non-emitting cell.
pub open spec fn ghost_cell_seq_v(
    origin: Vec2,
    grid_size: int,
    r_idx: int,
    c_idx: int,
    rows: int,
    cols: int,
    config: Config,
) -> Seq<Particle> {
    if ghost_cell_emits_v(r_idx, c_idx, rows, cols, config) {
        let n = ghost_cell_count_v(
            grid_size,
            ghost_cell_spacing_v(r_idx, c_idx, rows, cols, config),
        );
        Seq::new(
            (n * n) as nat,
            |t: int| ghost_cluster_particle_v(origin, grid_size, r_idx, c_idx, rows, cols, config, t),
        )
    } else {
        Seq::empty()
    }
}

/// Ghosts of the first `k` grid cells, in row-major order.
pub open spec fn ghost_ring_prefix_v(
    origin: Vec2,
    grid_size: int,
    rows: int,
    cols: int,
    config: Config,
    k: int,
) -> Seq<Particle>
    decreases k,
{
    if k <= 0 {
        Seq::empty()
    } else {
        ghost_ring_prefix_v(origin, grid_size, rows, cols, config, k - 1) + ghost_cell_seq_v(
            origin,
            grid_size,
            (k - 1) / cols,
            (k - 1) % cols,
            rows,
            cols,
            config,
        )
    }
}

/// The whole ghost boundary ring of the expanded grid.
pub open spec fn ghost_ring_seq_v(
    origin: Vec2,
    grid_size: int,
    rows: int,
    cols: int,
    config: Config,
) -> Seq<Particle> {
    ghost_ring_prefix_v(origin, grid_size, rows, cols, config, rows * cols)
}

/// The ring prefixes only grow.
proof fn lemma_ghost_ring_prefix_len_monotone(
    origin: Vec2,
    grid_size: int,
    rows: int,
    cols: int,
    config: Config,
    k1: int,
    k2: int,
)
    requires
        0 <= k1 <= k2,
    ensures
        ghost_ring_prefix_v(origin, grid_size, rows, cols, config, k1).len()
            <= ghost_ring_prefix_v(origin, grid_size, rows, cols, config, k2).len(),
    decreases k2,
{
    if k1 < k2 {
        lemma_ghost_ring_prefix_len_monotone(origin, grid_size, rows, cols, config, k1, k2 - 1);
    }
}

/// What holds of every generated ghost particle: flagged, static, at the
/// configured radius, with no initial density.
pub open spec fn ghost_particle_v(p: Particle, config: Config) -> bool {
    &&& p.is_ghost
    &&& p.radius == config.particle_radius
    &&& p.predicted_position == p.position
    &&& p.velocity == (Vec2 { x: 0i64, y: 0i64 })
    &&& p.acceleration == (Vec2 { x: 0i64, y: 0i64 })
    &&& p.density == 0 && p.near_density == 0
    &&& particle_ok(p)
}

impl Fluid {
    /// Spacing factor of a ghost ring cell, as `ghost_spacing_factor_v`.
    pub fn ghost_spacing_factor(
        r_idx: usize,
        extended_rows: usize,
        is_on_bottom: bool,
        is_on_side: bool,
        config: &Config,
    ) -> (factor: i64)
        requires
            2 <= extended_rows <= 0x7fff_ffff,
            r_idx < extended_rows,
            config.wf(),
        ensures
            factor as int == ghost_spacing_factor_v(
                r_idx as int,
                extended_rows as int,
                is_on_bottom,
                is_on_side,
                *config,
            ),
    {
        if is_on_bottom {
            10_000
        } else if is_on_side {
            let norm_y: i64 = ((r_idx as u64 * 10_000) / (extended_rows as u64 - 1)) as i64;
            proof {
                assert(norm_y as int == (r_idx as int * 10_000) / (extended_rows as int - 1));
            }
            let range_norm_y = fx_div(
                fx_sub(norm_y, config.ghost_wall_start_percent),
                fx_sub(10_000, config.ghost_wall_start_percent),
            );
            let interp_t: i64 = if range_norm_y < 0 {
                0
            } else if range_norm_y > 10_000 {
                10_000
            } else {
                range_norm_y
            };
            fx_add(
                fx_mul(config.start_ghost_spacing_multiplier, fx_sub(10_000, interp_t)),
                fx_mul(10_000, interp_t),
            )
        } else {
            10_000
        }
    }

    /// The particle count after the flow-spawn phase of one step.
    pub open spec fn post_spawn_len_v(&self, config: Config, delta_time: int) -> int {
        match self.particle_spawner {
            Option::None => self.particles@.len() as int,
            Option::Some(s) => {
                if flow_spawn_idle_v(s, config, self.particles@.len() as int) {
                    self.particles@.len() as int
                } else {
                    self.particles@.len() + flow_spawn_result_v(
                        fx_sub_v(s.time_to_next_spawn as int, delta_time),
                        s.flow_rate_interval as int,
                        config.particle_count as int - self.particles@.len(),
                    ).0
                }
            },
        }
    }

    /// Number of live (non-ghost) particles the constructor places.
    pub open spec fn live_spawn_count_v(config: Config, boundary: Boundary) -> int {
        if config.fluid_spawn_mode == FluidSpawnMode::Grid {
            if config.particle_count == 0 {
                0
            } else {
                let layout = grid_rows_cols_v(
                    config,
                    boundary.width as int,
                    boundary.height as int,
                );
                if config.particle_count as int <= layout.0 * layout.1 {
                    config.particle_count as int
                } else {
                    layout.0 * layout.1
                }
            }
        } else {
            0
        }
    }

    /// The `k`-th bulk-spawned particle, moved into the boundary box.
    pub open spec fn shifted_grid_particle_v(config: Config, boundary: Boundary, k: int)
        -> Particle {
        let p = grid_particle_v(config, boundary.width as int, boundary.height as int, k);
        let shifted = vadd_v(p.position, boundary.pos);
        Particle { position: shifted, predicted_position: shifted, ..p }
    }

    /// Cell contents only depend on the particles and the grid geometry.
    proof fn lemma_cell_content_congruent(a: &Fluid, b: &Fluid, c: int, k: int)
        requires
            a.particles@ == b.particles@,
            a.grid_cols == b.grid_cols,
            a.grid_rows == b.grid_rows,
            a.grid_size == b.grid_size,
            a.world_grid_origin == b.world_grid_origin,
        ensures
            a.cell_content_v(c, k) == b.cell_content_v(c, k),
        decreases k,
    {
        if k > 0 {
            Self::lemma_cell_content_congruent(a, b, c, k - 1);
        }
    }

    /// Everything `from_config` builds: the grid geometry, the spawner or
    /// the bulk-spawned live particles, the ghost boundary ring, and the
    /// first grid insertion.
    pub open spec fn constructed_v(f: Fluid, config: Config, boundary: Boundary) -> bool {
        &&& (f.grid_size == config.smoothing_radius)
        &&& (({
                let base_cols = (boundary.width + config.smoothing_radius - 1) as int
                    / config.smoothing_radius as int;
                let base_rows = (boundary.height + config.smoothing_radius - 1) as int
                    / config.smoothing_radius as int;
                if config.fluid_type == FluidType::Liquid {
                    &&& f.grid_cols as int == base_cols + 2
                    &&& f.grid_rows as int == base_rows + 2
                    &&& f.world_grid_origin == (Vec2 {
                        x: fx_sub_v(boundary.pos.x as int, config.smoothing_radius as int) as i64,
                        y: fx_sub_v(boundary.pos.y as int, config.smoothing_radius as int) as i64,
                    })
                } else {
                    &&& f.grid_cols as int == base_cols
                    &&& f.grid_rows as int == base_rows
                    &&& f.world_grid_origin == boundary.pos
                }
            }))
        &&& (config.fluid_spawn_mode == FluidSpawnMode::Flow ==> f.particle_spawner == Some(
                spawner_from_v(config, boundary),
            ))
        &&& (config.fluid_spawn_mode == FluidSpawnMode::Grid ==> f.particle_spawner is None)
        &&& (({
                let live = Self::live_spawn_count_v(config, boundary);
                &&& live <= f.particles@.len()
                &&& forall|k: int|
                    0 <= k < live ==> #[trigger] f.particles@[k] == Self::shifted_grid_particle_v(
                        config,
                        boundary,
                        k,
                    )
                &&& forall|k: int|
                    live <= k < f.particles@.len() ==> ghost_particle_v(
                        #[trigger] f.particles@[k],
                        config,
                    )
                &&& config.fluid_type != FluidType::Liquid ==> f.particles@.len() == live
            }))
        &&& (forall|c: int|
                0 <= c < f.grid@.len() ==> (#[trigger] f.grid@[c]).particles@
                    == f.cell_content_v(c, f.particles@.len() as int))
        &&& (forall|c: int|
                0 <= c < f.grid@.len() ==> (#[trigger] f.grid@[c]).grid_size
                    == config.smoothing_radius && f.grid@[c].position == (Vec2 {
                    x: fx_add_v(
                        f.world_grid_origin.x as int,
                        fx_scale_v(config.smoothing_radius as int, c % f.grid_cols as int),
                    ) as i64,
                    y: fx_add_v(
                        f.world_grid_origin.y as int,
                        fx_scale_v(config.smoothing_radius as int, c / f.grid_cols as int),
                    ) as i64,
                }))
        &&& (({
                let live = Self::live_spawn_count_v(config, boundary);
                let ring = ghost_ring_seq_v(
                    f.world_grid_origin,
                    config.smoothing_radius as int,
                    f.grid_rows as int,
                    f.grid_cols as int,
                    config,
                );
                config.fluid_type == FluidType::Liquid && live + ring.len() < usize::MAX ==> {
                    &&& f.particles@.len() == live + ring.len()
                    &&& forall|k: int|
                        live <= k < f.particles@.len() ==> #[trigger] f.particles@[k] == ring[k
                            - live]
                }
            }))
    }

    /// Build the initial fluid: bulk-grid or empty-with-spawner particle
    /// placement, the spatial grid sized to the smoothing radius (one ring
    /// of cells wider in liquid mode), the static ghost-particle boundary
    /// for the liquid, and a first grid insertion of every particle. A
    /// store that cannot grow further silently drops remaining ghosts.
    pub fn from_config(config: &Config, boundary: &Boundary) -> (f: Fluid)
        requires
            config.wf(),
            1 <= boundary.width <= 1_000_000_000_000,
            1 <= boundary.height <= 1_000_000_000_000,
            -1_000_000_000_000 <= boundary.pos.x <= 1_000_000_000_000,
            -1_000_000_000_000 <= boundary.pos.y <= 1_000_000_000_000,
            boundary.width <= config.smoothing_radius * 30_000,
            boundary.height <= config.smoothing_radius * 30_000,
        ensures
            f.wf(),
            Self::constructed_v(f, *config, *boundary),
    {
        let mut particles: Vec<Particle>;
        let mut particle_spawner: Option<ParticleSpawner> = None;

        if config.fluid_spawn_mode == FluidSpawnMode::Grid {
            particles = spawn_particles_grid(config, boundary.width, boundary.height);
            let live = particles.len();
            let mut k: usize = 0;
            while k < live
                invariant
                    live == particles@.len(),
                    live as int == Self::live_spawn_count_v(*config, *boundary),
                    k <= live,
                    config.particle_count > 0 ==> forall|j: int|
                        k as int <= j < live as int ==> #[trigger] particles@[j]
                            == grid_particle_v(
                            *config,
                            boundary.width as int,
                            boundary.height as int,
                            j,
                        ),
                    forall|j: int|
                        0 <= j < k as int ==> #[trigger] particles@[j]
                            == Self::shifted_grid_particle_v(*config, *boundary, j),
                decreases live - k,
            {
                let p = particles[k];
                let shifted = p.position.add(boundary.pos);
                particles[k] = Particle { position: shifted, predicted_position: shifted, ..p };
                k = k + 1;
            }
        } else {
            particles = Vec::new();
            let spawner = ParticleSpawner::new(config, boundary);
            proof {
                crate::fixed::lemma_fx_mul_nonneg(config.particle_radius as int, 11_000);
            }
            particle_spawner = Some(spawner);
        }
        let ghost live_len = particles@.len() as int;
        let ghost live_snapshot = particles@;
        proof {
            assert(live_len == Self::live_spawn_count_v(*config, *boundary));
            assert(forall|j: int|
                0 <= j < live_len ==> live_snapshot[j] == Self::shifted_grid_particle_v(
                    *config,
                    *boundary,
                    j,
                ));
        }

        let grid_size = config.smoothing_radius;
        let mut world_grid_origin = boundary.pos;

        proof {
            let gs = grid_size as int;
            vstd::arithmetic::div_mod::lemma_div_is_ordered(
                gs,
                boundary.width + gs - 1,
                gs,
            );
            vstd::arithmetic::div_mod::lemma_div_by_self(gs);
            assert(gs * 30_001 == gs * 30_000 + gs) by (nonlinear_arith);
            assert(gs * 30_000 == config.smoothing_radius as int * 30_000);
            vstd::arithmetic::div_mod::lemma_div_is_ordered(
                boundary.width + gs - 1,
                gs * 30_001,
                gs,
            );
            vstd::arithmetic::div_mod::lemma_div_multiples_vanish(30_001, gs);
            vstd::arithmetic::div_mod::lemma_div_is_ordered(
                gs,
                boundary.height + gs - 1,
                gs,
            );
            vstd::arithmetic::div_mod::lemma_div_is_ordered(
                boundary.height + gs - 1,
                gs * 30_001,
                gs,
            );
        }
        let base_grid_cols: usize = (((boundary.width + grid_size - 1) as u64) / (grid_size
            as u64)) as usize;
        let base_grid_rows: usize = (((boundary.height + grid_size - 1) as u64) / (grid_size
            as u64)) as usize;

        let mut current_grid_cols = base_grid_cols;
        let mut current_grid_rows = base_grid_rows;

        if config.fluid_type == FluidType::Liquid {
            current_grid_cols = base_grid_cols + 2;
            current_grid_rows = base_grid_rows + 2;
            world_grid_origin = Vec2::new(
                fx_sub(boundary.pos.x, grid_size),
                fx_sub(boundary.pos.y, grid_size),
            );

            // Ghost particles along the outer ring, except the top row.
            let extended_rows = current_grid_rows;
            let extended_cols = current_grid_cols;
            let ghost ring = ghost_ring_seq_v(
                world_grid_origin,
                grid_size as int,
                extended_rows as int,
                extended_cols as int,
                *config,
            );
            let ghost fits = live_len + ring.len() < usize::MAX as int;
            let mut r_idx: usize = 0;
            while r_idx < extended_rows
                invariant
                    config.wf(),
                    2 <= extended_rows <= 0x7fff_ffff,
                    2 <= extended_cols <= 0x7fff_ffff,
                    1 <= grid_size,
                    grid_size == config.smoothing_radius,
                    ring == ghost_ring_seq_v(
                        world_grid_origin,
                        grid_size as int,
                        extended_rows as int,
                        extended_cols as int,
                        *config,
                    ),
                    fits == (live_len + ring.len() < usize::MAX as int),
                    r_idx <= extended_rows,
                    0 <= live_len <= particles@.len() < usize::MAX,
                        live_snapshot.len() == live_len,
                    forall|j: int| 0 <= j < live_len ==> particles@[j] == live_snapshot[j],
                    forall|j: int|
                        live_len <= j < particles@.len() ==> ghost_particle_v(
                            #[trigger] particles@[j],
                            *config,
                        ),
                    fits ==> particles@ == live_snapshot + ghost_ring_prefix_v(
                        world_grid_origin,
                        grid_size as int,
                        extended_rows as int,
                        extended_cols as int,
                        *config,
                        r_idx as int * extended_cols as int,
                    ),
                decreases extended_rows - r_idx,
            {
                let mut c_idx: usize = 0;
                while c_idx < extended_cols
                    invariant
                        config.wf(),
                        2 <= extended_rows <= 0x7fff_ffff,
                        2 <= extended_cols <= 0x7fff_ffff,
                        1 <= grid_size,
                        grid_size == config.smoothing_radius,
                        ring == ghost_ring_seq_v(
                            world_grid_origin,
                            grid_size as int,
                            extended_rows as int,
                            extended_cols as int,
                            *config,
                        ),
                        fits == (live_len + ring.len() < usize::MAX as int),
                        r_idx < extended_rows,
                        c_idx <= extended_cols,
                        0 <= live_len <= particles@.len() < usize::MAX,
                        live_snapshot.len() == live_len,
                        forall|j: int| 0 <= j < live_len ==> particles@[j] == live_snapshot[j],
                        forall|j: int|
                            live_len <= j < particles@.len() ==> ghost_particle_v(
                                #[trigger] particles@[j],
                                *config,
                            ),
                        fits ==> particles@ == live_snapshot + ghost_ring_prefix_v(
                            world_grid_origin,
                            grid_size as int,
                            extended_rows as int,
                            extended_cols as int,
                            *config,
                            r_idx as int * extended_cols as int + c_idx as int,
                        ),
                    decreases extended_cols - c_idx,
                {
                    let ghost kcell = r_idx as int * extended_cols as int + c_idx as int;
                    let ghost cell_seq = ghost_cell_seq_v(
                        world_grid_origin,
                        grid_size as int,
                        r_idx as int,
                        c_idx as int,
                        extended_rows as int,
                        extended_cols as int,
                        *config,
                    );
                    proof {
                        lemma_grid_cell_index(
                            c_idx as int,
                            r_idx as int,
                            extended_cols as int,
                            extended_rows as int,
                        );
                    }
                    let on_ring = r_idx == 0 || r_idx == extended_rows - 1 || c_idx == 0 || c_idx
                        == extended_cols - 1;
                    let is_on_top_boundary = r_idx == 0;
                    let norm_y: i64 = ((r_idx as u64 * 10_000) / (extended_rows as u64 - 1))
                        as i64;
                    proof {
                        assert(norm_y as int == (r_idx as int * 10_000) / (extended_rows as int
                            - 1));
                    }
                    if on_ring && !is_on_top_boundary {
                        let is_on_left_boundary = c_idx == 0;
                        let is_on_right_boundary = c_idx == extended_cols - 1;
                        let is_on_bottom_boundary = r_idx == extended_rows - 1;
                        let is_on_side = is_on_left_boundary || is_on_right_boundary;

                        let mut skip = false;
                        if is_on_side {
                            if norm_y < config.ghost_wall_start_percent {
                                skip = true;
                            }
                        }

                        if !skip {
                            let spacing_factor = Self::ghost_spacing_factor(
                                r_idx,
                                extended_rows,
                                is_on_bottom_boundary,
                                is_on_side,
                                config,
                            );

                            let current_spacing = fx_mul(
                                fx_mul(config.particle_radius, config.target_ghost_spacing),
                                spacing_factor,
                            );
                            proof {
                                assert(current_spacing as int == ghost_cell_spacing_v(
                                    r_idx as int,
                                    c_idx as int,
                                    extended_rows as int,
                                    extended_cols as int,
                                    *config,
                                ));
                            }

                            if current_spacing > 10 {
                                let q: u64 = (grid_size as u64) / (current_spacing as u64);
                                let count: u32 = if q < 1 {
                                    1
                                } else {
                                    proof {
                                        vstd::arithmetic::div_mod::lemma_div_is_ordered_by_denominator(
                                            grid_size as int,
                                            1,
                                            current_spacing as int,
                                        );
                                        vstd::arithmetic::div_mod::lemma_div_basics(
                                            grid_size as int,
                                        );
                                    }
                                    q as u32
                                };
                                let count_x = count;
                                let count_y = count;
                                proof {
                                    assert(count as int == ghost_cell_count_v(
                                        grid_size as int,
                                        current_spacing as int,
                                    ));
                                    assert(ghost_cell_emits_v(
                                        r_idx as int,
                                        c_idx as int,
                                        extended_rows as int,
                                        extended_cols as int,
                                        *config,
                                    ));
                                    crate::fixed::lemma_mul_pos(count as int, count as int);
                                    assert(cell_seq.len() == count as int * count as int);
                                }

                                let margin_x = fx_half(
                                    fx_sub(grid_size, fx_scale(current_spacing, count_x as i64)),
                                );
                                let margin_y = fx_half(
                                    fx_sub(grid_size, fx_scale(current_spacing, count_y as i64)),
                                );
                                proof {
                                    assert(margin_y == margin_x);
                                }

                                let cell_origin_x = fx_add(
                                    world_grid_origin.x,
                                    fx_scale(grid_size, c_idx as i64),
                                );
                                let cell_origin_y = fx_add(
                                    world_grid_origin.y,
                                    fx_scale(grid_size, r_idx as i64),
                                );

                                let mut gi: u32 = 0;
                                while gi < count_y
                                    invariant
                                        config.wf(),
                                        2 <= extended_rows <= 0x7fff_ffff,
                                        2 <= extended_cols <= 0x7fff_ffff,
                                        1 <= grid_size,
                                        r_idx < extended_rows,
                                        c_idx < extended_cols,
                                        kcell == r_idx as int * extended_cols as int
                                            + c_idx as int,
                                        0 <= kcell < extended_cols as int * extended_rows as int,
                                        ring == ghost_ring_seq_v(
                                            world_grid_origin,
                                            grid_size as int,
                                            extended_rows as int,
                                            extended_cols as int,
                                            *config,
                                        ),
                                        fits == (live_len + ring.len() < usize::MAX as int),
                                        cell_seq == ghost_cell_seq_v(
                                            world_grid_origin,
                                            grid_size as int,
                                            r_idx as int,
                                            c_idx as int,
                                            extended_rows as int,
                                            extended_cols as int,
                                            *config,
                                        ),
                                        ghost_cell_emits_v(
                                            r_idx as int,
                                            c_idx as int,
                                            extended_rows as int,
                                            extended_cols as int,
                                            *config,
                                        ),
                                        current_spacing as int == ghost_cell_spacing_v(
                                            r_idx as int,
                                            c_idx as int,
                                            extended_rows as int,
                                            extended_cols as int,
                                            *config,
                                        ),
                                        count as int == ghost_cell_count_v(
                                            grid_size as int,
                                            current_spacing as int,
                                        ),
                                        count_x == count && count_y == count && count >= 1,
                                        cell_seq.len() == count as int * count as int,
                                        margin_x as int == fx_half_v(
                                            fx_sub_v(
                                                grid_size as int,
                                                fx_scale_v(current_spacing as int, count as int),
                                            ),
                                        ),
                                        margin_y == margin_x,
                                        cell_origin_x as int == fx_add_v(
                                            world_grid_origin.x as int,
                                            fx_scale_v(grid_size as int, c_idx as int),
                                        ),
                                        cell_origin_y as int == fx_add_v(
                                            world_grid_origin.y as int,
                                            fx_scale_v(grid_size as int, r_idx as int),
                                        ),
                                        gi <= count_y,
                                        0 <= live_len <= particles@.len() < usize::MAX,
                        live_snapshot.len() == live_len,
                                        forall|j: int|
                                            0 <= j < live_len ==> particles@[j]
                                                == live_snapshot[j],
                                        forall|j: int|
                                            live_len <= j < particles@.len()
                                                ==> ghost_particle_v(
                                                #[trigger] particles@[j],
                                                *config,
                                            ),
                                        fits ==> particles@ == live_snapshot
                                            + ghost_ring_prefix_v(
                                            world_grid_origin,
                                            grid_size as int,
                                            extended_rows as int,
                                            extended_cols as int,
                                            *config,
                                            kcell,
                                        ) + cell_seq.subrange(0, gi as int * count as int),
                                    decreases count_y - gi,
                                {
                                    proof {
                                        assert(gi as int * count as int <= count as int * (
                                        count as int - 1)) by (nonlinear_arith)
                                            requires
                                                gi as int <= count as int - 1,
                                                count as int >= 1,
                                        ;
                                    }
                                    let mut gj: u32 = 0;
                                    while gj < count_x
                                        invariant
                                            config.wf(),
                                            2 <= extended_rows <= 0x7fff_ffff,
                                            2 <= extended_cols <= 0x7fff_ffff,
                                            1 <= grid_size,
                                            r_idx < extended_rows,
                                            c_idx < extended_cols,
                                            kcell == r_idx as int * extended_cols as int
                                                + c_idx as int,
                                            0 <= kcell < extended_cols as int
                                                * extended_rows as int,
                                            ring == ghost_ring_seq_v(
                                                world_grid_origin,
                                                grid_size as int,
                                                extended_rows as int,
                                                extended_cols as int,
                                                *config,
                                            ),
                                            fits == (live_len + ring.len()
                                                < usize::MAX as int),
                                            cell_seq == ghost_cell_seq_v(
                                                world_grid_origin,
                                                grid_size as int,
                                                r_idx as int,
                                                c_idx as int,
                                                extended_rows as int,
                                                extended_cols as int,
                                                *config,
                                            ),
                                            ghost_cell_emits_v(
                                                r_idx as int,
                                                c_idx as int,
                                                extended_rows as int,
                                                extended_cols as int,
                                                *config,
                                            ),
                                            current_spacing as int == ghost_cell_spacing_v(
                                                r_idx as int,
                                                c_idx as int,
                                                extended_rows as int,
                                                extended_cols as int,
                                                *config,
                                            ),
                                            count as int == ghost_cell_count_v(
                                                grid_size as int,
                                                current_spacing as int,
                                            ),
                                            count_x == count && count_y == count && count >= 1,
                                            cell_seq.len() == count as int * count as int,
                                            margin_x as int == fx_half_v(
                                                fx_sub_v(
                                                    grid_size as int,
                                                    fx_scale_v(
                                                        current_spacing as int,
                                                        count as int,
                                                    ),
                                                ),
                                            ),
                                            margin_y == margin_x,
                                            cell_origin_x as int == fx_add_v(
                                                world_grid_origin.x as int,
                                                fx_scale_v(grid_size as int, c_idx as int),
                                            ),
                                            cell_origin_y as int == fx_add_v(
                                                world_grid_origin.y as int,
                                                fx_scale_v(grid_size as int, r_idx as int),
                                            ),
                                            gi < count_y,
                                            gj <= count_x,
                                            gi as int * count as int <= count as int * (
                                            count as int - 1),
                                            0 <= live_len <= particles@.len() < usize::MAX,
                        live_snapshot.len() == live_len,
                                            forall|j: int|
                                                0 <= j < live_len ==> particles@[j]
                                                    == live_snapshot[j],
                                            forall|j: int|
                                                live_len <= j < particles@.len()
                                                    ==> ghost_particle_v(
                                                    #[trigger] particles@[j],
                                                    *config,
                                                ),
                                            fits ==> particles@ == live_snapshot
                                                + ghost_ring_prefix_v(
                                                world_grid_origin,
                                                grid_size as int,
                                                extended_rows as int,
                                                extended_cols as int,
                                                *config,
                                                kcell,
                                            ) + cell_seq.subrange(
                                                0,
                                                gi as int * count as int + gj as int,
                                            ),
                                        decreases count_x - gj,
                                    {
                                        let px = fx_add(
                                            fx_add(
                                                fx_add(cell_origin_x, margin_x),
                                                fx_scale(current_spacing, gj as i64),
                                            ),
                                            fx_half(current_spacing),
                                        );
                                        let py = fx_add(
                                            fx_add(
                                                fx_add(cell_origin_y, margin_y),
                                                fx_scale(current_spacing, gi as i64),
                                            ),
                                            fx_half(current_spacing),
                                        );
                                        let ghost t = gi as int * count as int + gj as int;
                                        proof {
                                            if fits {
                                                assert(extended_rows as int * extended_cols
                                                    as int == extended_cols as int
                                                    * extended_rows as int)
                                                    by (nonlinear_arith);
                                                lemma_ghost_ring_prefix_len_monotone(
                                                    world_grid_origin,
                                                    grid_size as int,
                                                    extended_rows as int,
                                                    extended_cols as int,
                                                    *config,
                                                    kcell + 1,
                                                    extended_rows as int * extended_cols as int,
                                                );
                                                vstd::arithmetic::div_mod::lemma_fundamental_div_mod_converse(
                                                    kcell,
                                                    extended_cols as int,
                                                    r_idx as int,
                                                    c_idx as int,
                                                );
                                                assert(count as int * (count as int - 1)
                                                    + count as int == count as int
                                                    * count as int) by (nonlinear_arith);
                                                assert(t < cell_seq.len());
                                                assert(ghost_ring_prefix_v(
                                                    world_grid_origin,
                                                    grid_size as int,
                                                    extended_rows as int,
                                                    extended_cols as int,
                                                    *config,
                                                    kcell + 1,
                                                ) == ghost_ring_prefix_v(
                                                    world_grid_origin,
                                                    grid_size as int,
                                                    extended_rows as int,
                                                    extended_cols as int,
                                                    *config,
                                                    kcell,
                                                ) + cell_seq);
                                                assert(particles@.len() < usize::MAX as int - 1);
                                            }
                                        }
                                        if particles.len() < usize::MAX - 1 {
                                            particles.push(
                                                Particle::new(
                                                    Vec2::new(px, py),
                                                    config.particle_radius,
                                                    true,
                                                ),
                                            );
                                            proof {
                                                if fits {
                                                    vstd::arithmetic::div_mod::lemma_fundamental_div_mod_converse(
                                                        t,
                                                        count as int,
                                                        gi as int,
                                                        gj as int,
                                                    );
                                                    assert(particles@[particles@.len() - 1]
                                                        == ghost_cluster_particle_v(
                                                        world_grid_origin,
                                                        grid_size as int,
                                                        r_idx as int,
                                                        c_idx as int,
                                                        extended_rows as int,
                                                        extended_cols as int,
                                                        *config,
                                                        t,
                                                    ));
                                                    assert(cell_seq[t]
                                                        == ghost_cluster_particle_v(
                                                        world_grid_origin,
                                                        grid_size as int,
                                                        r_idx as int,
                                                        c_idx as int,
                                                        extended_rows as int,
                                                        extended_cols as int,
                                                        *config,
                                                        t,
                                                    ));
                                                    assert(cell_seq.subrange(0, t + 1)
                                                        =~= cell_seq.subrange(0, t).push(
                                                        cell_seq[t],
                                                    ));
                                                    assert(particles@ == live_snapshot
                                                        + ghost_ring_prefix_v(
                                                        world_grid_origin,
                                                        grid_size as int,
                                                        extended_rows as int,
                                                        extended_cols as int,
                                                        *config,
                                                        kcell,
                                                    ) + cell_seq.subrange(0, t + 1));
                                                }
                                            }
                                        }
                                        gj = gj + 1;
                                    }
                                    proof {
                                        assert((gi as int + 1) * count as int == gi as int
                                            * count as int + count as int) by (nonlinear_arith);
                                        assert((gi as int + 1) * count as int <= count as int
                                            * count as int) by (nonlinear_arith)
                                            requires
                                                gi as int + 1 <= count as int,
                                        ;
                                    }
                                    gi = gi + 1;
                                }
                                proof {
                                    if fits {
                                        assert(cell_seq.subrange(0, cell_seq.len() as int)
                                            =~= cell_seq);
                                        assert(particles@ == live_snapshot + ghost_ring_prefix_v(
                                            world_grid_origin,
                                            grid_size as int,
                                            extended_rows as int,
                                            extended_cols as int,
                                            *config,
                                            kcell,
                                        ) + cell_seq);
                                    }
                                }
                            } else {
                                proof {
                                    assert(!ghost_cell_emits_v(
                                        r_idx as int,
                                        c_idx as int,
                                        extended_rows as int,
                                        extended_cols as int,
                                        *config,
                                    ));
                                }
                            }
                        } else {
                            proof {
                                assert(!ghost_cell_emits_v(
                                    r_idx as int,
                                    c_idx as int,
                                    extended_rows as int,
                                    extended_cols as int,
                                    *config,
                                ));
                            }
                        }
                    } else {
                        proof {
                            assert(!ghost_cell_emits_v(
                                r_idx as int,
                                c_idx as int,
                                extended_rows as int,
                                extended_cols as int,
                                *config,
                            ));
                        }
                    }
                    proof {
                        if fits {
                            if !ghost_cell_emits_v(
                                r_idx as int,
                                c_idx as int,
                                extended_rows as int,
                                extended_cols as int,
                                *config,
                            ) {
                                assert(cell_seq =~= Seq::<Particle>::empty());
                                assert(particles@ =~= live_snapshot + ghost_ring_prefix_v(
                                    world_grid_origin,
                                    grid_size as int,
                                    extended_rows as int,
                                    extended_cols as int,
                                    *config,
                                    kcell,
                                ) + cell_seq);
                            }
                            assert(ghost_ring_prefix_v(
                                world_grid_origin,
                                grid_size as int,
                                extended_rows as int,
                                extended_cols as int,
                                *config,
                                kcell + 1,
                            ) == ghost_ring_prefix_v(
                                world_grid_origin,
                                grid_size as int,
                                extended_rows as int,
                                extended_cols as int,
                                *config,
                                kcell,
                            ) + ghost_cell_seq_v(
                                world_grid_origin,
                                grid_size as int,
                                kcell / extended_cols as int,
                                kcell % extended_cols as int,
                                extended_rows as int,
                                extended_cols as int,
                                *config,
                            ));
                            vstd::arithmetic::div_mod::lemma_fundamental_div_mod_converse(
                                kcell,
                                extended_cols as int,
                                r_idx as int,
                                c_idx as int,
                            );
                            assert(particles@ == live_snapshot + ghost_ring_prefix_v(
                                world_grid_origin,
                                grid_size as int,
                                extended_rows as int,
                                extended_cols as int,
                                *config,
                                kcell + 1,
                            ));
                        }
                    }
                    c_idx = c_idx + 1;
                }
                proof {
                    assert((r_idx as int + 1) * extended_cols as int == r_idx as int
                        * extended_cols as int + extended_cols as int) by (nonlinear_arith);
                }
                r_idx = r_idx + 1;
            }
            proof {
                assert(extended_rows as int * extended_cols as int == extended_rows as int
                    * extended_cols as int);
                if fits {
                    assert(particles@ == live_snapshot + ring);
                }
            }
        }

        // Build the empty grid cells.
        proof {
            crate::fixed::lemma_mul_bounds(
                current_grid_cols as int,
                30_003,
                current_grid_rows as int,
                30_003,
            );
        }
        let total_cells = current_grid_cols * current_grid_rows;
        let mut grid: Vec<GridCell> = Vec::new();
        let mut ci: usize = 0;
        while ci < total_cells
            invariant
                1 <= current_grid_cols <= 0x7fff_ffff,
                ci <= total_cells,
                grid@.len() == ci as int,
                total_cells <= 0x7fff_ffff,
                forall|j: int|
                    0 <= j < ci as int ==> (#[trigger] grid@[j]).particles@
                        == Seq::<usize>::empty(),
                forall|c: int|
                    0 <= c < ci as int ==> (#[trigger] grid@[c]).grid_size == grid_size
                        && grid@[c].position == (Vec2 {
                        x: fx_add_v(
                            world_grid_origin.x as int,
                            fx_scale_v(grid_size as int, c % current_grid_cols as int),
                        ) as i64,
                        y: fx_add_v(
                            world_grid_origin.y as int,
                            fx_scale_v(grid_size as int, c / current_grid_cols as int),
                        ) as i64,
                    }),
            decreases total_cells - ci,
        {
            let j = ci % current_grid_cols;
            let i_row = ci / current_grid_cols;
            let position = Vec2::new(
                fx_add(world_grid_origin.x, fx_scale(grid_size, j as i64)),
                fx_add(world_grid_origin.y, fx_scale(grid_size, i_row as i64)),
            );
            grid.push(GridCell::new(grid_size, position));
            ci = ci + 1;
        }

        let mut fluid = Fluid {
            grid,
            particles,
            grid_cols: current_grid_cols,
            grid_rows: current_grid_rows,
            grid_size,
            particle_spawner,
            world_grid_origin,
        };
        proof {
            assert forall|i: int|
                0 <= i < fluid.particles@.len() implies particle_ok(
                #[trigger] fluid.particles@[i],
            ) && ghost_static_v(fluid.particles@[i]) by {
                if i < live_len {
                    assert(fluid.particles@[i] == live_snapshot[i]);
                } else {
                    assert(ghost_particle_v(fluid.particles@[i], *config));
                }
            }
            assert(fluid.wf());
        }
        let ghost before = fluid;
        fluid.update_spatial_grid();
        proof {
            assert forall|c: int|
                0 <= c < fluid.grid@.len() implies (#[trigger] fluid.grid@[c]).particles@
                == fluid.cell_content_v(c, fluid.particles@.len() as int) by {
                Self::lemma_cell_content_congruent(
                    &before,
                    &fluid,
                    c,
                    fluid.particles@.len() as int,
                );
            }
            assert forall|k: int|
                0 <= k < live_len implies #[trigger] fluid.particles@[k]
                == Self::shifted_grid_particle_v(*config, *boundary, k) by {
                assert(fluid.particles@[k] == live_snapshot[k]);
            }
            if config.fluid_type == FluidType::Liquid {
                let ring2 = ghost_ring_seq_v(
                    fluid.world_grid_origin,
                    config.smoothing_radius as int,
                    fluid.grid_rows as int,
                    fluid.grid_cols as int,
                    *config,
                );
                if live_len + ring2.len() < usize::MAX {
                    assert(fluid.particles@ == live_snapshot + ring2);
                    assert forall|k: int|
                        live_len <= k < fluid.particles@.len() implies #[trigger] fluid.particles@[k]
                        == ring2[k - live_len] by {
                        assert(fluid.particles@[k] == (live_snapshot + ring2)[k]);
                    }
                }
            }
        }
        fluid
    }

    /// Neighbour gathering only reads the grid and its dimensions.
    proof fn lemma_neighbors_congruent(a: &Fluid, b: &Fluid, gx: int, gy: int, m: int)
        requires
            a.grid == b.grid,
            a.grid_cols == b.grid_cols,
            a.grid_rows == b.grid_rows,
        ensures
            a.neighbors_prefix_v(gx, gy, m) == b.neighbors_prefix_v(gx, gy, m),
        decreases m,
    {
        if m > 0 {
            Self::lemma_neighbors_congruent(a, b, gx, gy, m - 1);
        }
    }

    /// Every index a 3x3 gather returns points into the particle array.
    proof fn lemma_neighbors_prefix_valid(&self, gx: int, gy: int, m: int)
        requires
            self.wf(),
        ensures
            forall|t: int|
                0 <= t < self.neighbors_prefix_v(gx, gy, m).len() ==> (
                #[trigger] self.neighbors_prefix_v(gx, gy, m)[t]) < self.particles@.len(),
        decreases m,
    {
        if m > 0 {
            self.lemma_neighbors_prefix_valid(gx, gy, m - 1);
            let pre = self.neighbors_prefix_v(gx, gy, m - 1);
            let cgx = gx + (m - 1) % 3 - 1;
            let cgy = gy + (m - 1) / 3 - 1;
            let cell = self.cell_seq_v(cgx, cgy);
            if 0 <= cgx < self.grid_cols && 0 <= cgy < self.grid_rows {
                lemma_grid_cell_index(cgx, cgy, self.grid_cols as int, self.grid_rows as int);
                assert(cell_indices_valid(
                    self.grid@[cgy * self.grid_cols + cgx],
                    self.particles@.len() as int,
                ));
            }
            assert forall|t: int|
                0 <= t < (pre + cell).len() implies ((pre + cell)[t]) < self.particles@.len() by {
                if t < pre.len() {
                    assert((pre + cell)[t] == pre[t]);
                } else {
                    assert((pre + cell)[t] == cell[t - pre.len()]);
                }
            }
        }
    }

    /// Cell contents only depend on the particles' predicted positions and
    /// the grid geometry.
    proof fn lemma_cell_content_predicted_congruent(a: &Fluid, b: &Fluid, c: int, k: int)
        requires
            a.grid_cols == b.grid_cols,
            a.grid_rows == b.grid_rows,
            a.grid_size == b.grid_size,
            a.world_grid_origin == b.world_grid_origin,
            a.particles@.len() == b.particles@.len(),
            forall|i: int|
                0 <= i < a.particles@.len() ==> (#[trigger] a.particles@[i]).predicted_position
                    == b.particles@[i].predicted_position,
            k <= a.particles@.len(),
        ensures
            a.cell_content_v(c, k) == b.cell_content_v(c, k),
        decreases k,
    {
        if k > 0 {
            Self::lemma_cell_content_predicted_congruent(a, b, c, k - 1);
            assert(a.cell_of_particle_v(a.particles@[k - 1]) == b.cell_of_particle_v(
                b.particles@[k - 1],
            ));
        }
    }

    /// The pre-integration state of particle `i` of a step from `pre` to
    /// `post`: position, velocity and acceleration as they stood before the
    /// Integrate phase (for an injected particle: at its spawn point, at
    /// rest), with the predicted position and density fields of `post`,
    /// which Integrate does not change.
    pub open spec fn mid_step_particle_v(pre: Fluid, post: Fluid, i: int) -> Particle {
        let q = post.particles@[i];
        if i < pre.particles@.len() {
            let p = pre.particles@[i];
            Particle { position: p.position, velocity: p.velocity, acceleration: p.acceleration, ..q }
        } else {
            Particle {
                position: q.predicted_position,
                velocity: Vec2 { x: 0i64, y: 0i64 },
                acceleration: Vec2 { x: 0i64, y: 0i64 },
                ..q
            }
        }
    }

    /// The whole pre-integration particle sequence of a step.
    pub open spec fn mid_step_particles_v(pre: Fluid, post: Fluid) -> Seq<Particle> {
        Seq::new(post.particles@.len(), |i: int| Self::mid_step_particle_v(pre, post, i))
    }

    /// One particle after its buffered force is committed:
    /// `acceleration += force / density`, skipped for non-positive density.
    pub open spec fn committed_v(p: Particle, force: Vec2) -> Particle {
        if p.density > 0 {
            Particle { acceleration: vadd_v(p.acceleration, vdiv_v(force, p.density as int)), ..p }
        } else {
            p
        }
    }

    /// Whether `f` is a step force for particle `i`: a pressure force (for
    /// the substitute-direction witness hidden in `is_pressure_force`) plus
    /// the viscosity force, over the pre-integration particles and the
    /// given neighbour list.
    pub open spec fn step_force_split_v(
        particles: Seq<Particle>,
        neighbors: Seq<usize>,
        config: Config,
        i: int,
        f: Vec2,
        pf: Vec2,
    ) -> bool {
        &&& is_pressure_force(
            particles,
            i,
            neighbors,
            config.mass as int,
            config.smoothing_radius as int,
            config,
            pf,
        )
        &&& f == vadd_v(
            pf,
            viscosity_from_neighbors_v(
                i,
                neighbors,
                particles,
                config.mass as int,
                config.smoothing_radius as int,
                config.viscosity_strength as int,
            ),
        )
    }

    /// Whether `f` is a step force for particle `j` of this state, for
    /// some pressure-force part.
    pub open spec fn step_force_at_v(&self, config: Config, j: int, f: Vec2) -> bool {
        let coords = self.coords_of_v(self.particles@[j].predicted_position);
        exists|pf: Vec2|
            #[trigger] Self::step_force_split_v(
                self.particles@,
                self.neighbors_v(coords.0, coords.1),
                config,
                j,
                f,
                pf,
            )
    }

    /// Whether particle `i` of `post` is the integration of its
    /// pre-integration state under the step force `f` (split as `pf` plus
    /// viscosity), gathered from `post`'s grid.
    pub open spec fn step_integrated_v(
        pre: Fluid,
        post: Fluid,
        config: Config,
        delta_time: int,
        gravity: Vec2,
        i: int,
        f: Vec2,
        pf: Vec2,
    ) -> bool {
        let mid = Self::mid_step_particles_v(pre, post);
        let coords = post.coords_of_v(post.particles@[i].predicted_position);
        let neighbors = post.neighbors_v(coords.0, coords.1);
        &&& Self::step_force_split_v(mid, neighbors, config, i, f, pf)
        &&& post.particles@[i] == integrated_v(
            Self::committed_v(mid[i], f),
            delta_time,
            gravity,
        )
    }

    /// Everything one step guarantees: the flow-spawn bookkeeping, the
    /// prediction of every pre-existing particle, the grid rebuilt from
    /// the predicted positions, both density fields recomputed as the
    /// neighbour sums over the rebuilt grid, every live particle
    /// integrated under some step force, and ghost particles bit-identical
    /// but for their density fields.
    pub open spec fn step_ensures_v(
        pre: Fluid,
        post: Fluid,
        config: Config,
        delta_time: int,
        gravity: Vec2,
    ) -> bool {
        let n0 = pre.particles@.len() as int;
        let n = post.particles@.len() as int;
        &&& post.grid_cols == pre.grid_cols
        &&& post.grid_rows == pre.grid_rows
        &&& post.grid_size == pre.grid_size
        &&& post.world_grid_origin == pre.world_grid_origin
        &&& match pre.particle_spawner {
            Option::None => post.particle_spawner is None,
            Option::Some(s) => {
                &&& post.particle_spawner is Some
                &&& {
                    let after = post.particle_spawner->Some_0;
                    &&& after.spawn_x_min == s.spawn_x_min
                    &&& after.spawn_x_max == s.spawn_x_max
                    &&& after.spawn_y == s.spawn_y
                    &&& after.flow_rate_interval == s.flow_rate_interval
                    &&& flow_spawn_idle_v(s, config, n0) ==> after == s
                    &&& !flow_spawn_idle_v(s, config, n0) ==> after.time_to_next_spawn
                        == flow_spawn_result_v(
                        fx_sub_v(s.time_to_next_spawn as int, delta_time),
                        s.flow_rate_interval as int,
                        config.particle_count as int - n0,
                    ).1
                }
            },
        }
        &&& n == pre.post_spawn_len_v(config, delta_time)
        &&& n0 <= n
        &&& forall|i: int|
            0 <= i < n0 ==> (#[trigger] post.particles@[i]).predicted_position == predicted_v(
                pre.particles@[i],
            )
        &&& forall|i: int|
            0 <= i < n0 ==> {
                let p = #[trigger] post.particles@[i];
                p.is_ghost == pre.particles@[i].is_ghost && p.radius == pre.particles@[i].radius
            }
        &&& forall|i: int|
            0 <= i < n0 && pre.particles@[i].is_ghost ==> {
                let p = #[trigger] post.particles@[i];
                let q = pre.particles@[i];
                &&& p.position == q.position
                &&& p.velocity == q.velocity
                &&& p.acceleration == q.acceleration
                &&& p.predicted_position == q.predicted_position
            }
        &&& forall|i: int|
            n0 <= i < n ==> {
                let p = #[trigger] post.particles@[i];
                &&& pre.particle_spawner is Some
                &&& !p.is_ghost
                &&& p.radius == config.particle_radius
                &&& pre.particle_spawner->Some_0.spawn_x_min <= p.predicted_position.x
                    < pre.particle_spawner->Some_0.spawn_x_max
                &&& p.predicted_position.y == pre.particle_spawner->Some_0.spawn_y
            }
        &&& post.grid@.len() == pre.grid@.len()
        &&& forall|c: int|
            0 <= c < post.grid@.len() ==> (#[trigger] post.grid@[c]).particles@
                == post.cell_content_v(c, n)
        &&& forall|c: int|
            0 <= c < post.grid@.len() ==> (#[trigger] post.grid@[c]).grid_size
                == pre.grid@[c].grid_size && post.grid@[c].position == pre.grid@[c].position
        &&& forall|i: int|
            0 <= i < n ==> {
                let p = #[trigger] post.particles@[i];
                &&& p.density as int == post.density_at_v(
                    i,
                    config.mass as int,
                    config.smoothing_radius as int,
                )
                &&& p.near_density as int == post.near_density_at_v(
                    i,
                    config.mass as int,
                    config.smoothing_radius as int,
                )
                &&& p.density >= 0
                &&& p.near_density >= 0
            }
        &&& forall|i: int|
            0 <= i < n && !(#[trigger] post.particles@[i]).is_ghost ==> exists|f: Vec2, pf: Vec2|
                #[trigger] Self::step_integrated_v(pre, post, config, delta_time, gravity, i, f, pf)
    }

    /// One full simulation step:
    /// flow spawn (if active) -> Predict -> Rebuild -> Density -> Forces
    /// -> Integrate. Force computation writes into a separate buffer that
    /// is committed afterwards. Ghost particles keep their position,
    /// velocity, acceleration and predicted position bit for bit, and
    /// every density field comes out non-negative.
    pub fn update(&mut self, delta_time: i64, gravity: Vec2, config: &Config)
        requires
            old(self).wf(),
            config.wf(),
        ensures
            final(self).wf(),
            Self::step_ensures_v(*old(self), *final(self), *config, delta_time as int, gravity),
    {
        // Flow spawn.
        let ghost s0 = *self;
        match &mut self.particle_spawner {
            Option::Some(spawner) => {
                spawner.update_flow_spawn(&mut self.particles, config, delta_time);
            },
            Option::None => {},
        }
        proof {
            if s0.particle_spawner is Some {
                let sp = s0.particle_spawner->Some_0;
                if !flow_spawn_idle_v(sp, *config, s0.particles@.len() as int) {
                    lemma_flow_spawn_count_bounds(
                        fx_sub_v(sp.time_to_next_spawn as int, delta_time as int),
                        sp.flow_rate_interval as int,
                        config.particle_count as int - s0.particles@.len(),
                    );
                }
            }
            assert forall|i: int|
                0 <= i < self.particles@.len() implies particle_ok(
                #[trigger] self.particles@[i],
            ) && ghost_static_v(self.particles@[i]) by {
                if i < s0.particles@.len() {
                    assert(self.particles@[i] == s0.particles@[i]);
                    assert(particle_ok(s0.particles@[i]) && ghost_static_v(s0.particles@[i]));
                } else {
                    let sp = s0.particle_spawner->Some_0;
                    assert(spawned_particle_v(self.particles@[i], sp, *config));
                }
            }
            assert forall|c: int|
                0 <= c < self.grid@.len() implies cell_indices_valid(
                #[trigger] self.grid@[c],
                self.particles@.len() as int,
            ) by {
                assert(cell_indices_valid(s0.grid@[c], s0.particles@.len() as int));
            }
            assert(self.wf());
            assert(self.particles@.len() == s0.post_spawn_len_v(*config, delta_time as int));
        }
        let ghost post_spawn_len = self.particles@.len() as int;

        // Predict.
        let ghost s1 = *self;
        let n = self.particles.len();
        let mut i: usize = 0;
        while i < n
            invariant
                s1.wf(),
                n == s1.particles@.len(),
                self.particles@.len() == n,
                self.grid == s1.grid,
                self.grid_cols == s1.grid_cols,
                self.grid_rows == s1.grid_rows,
                self.grid_size == s1.grid_size,
                self.world_grid_origin == s1.world_grid_origin,
                self.particle_spawner == s1.particle_spawner,
                i <= n,
                forall|j: int| i as int <= j < n as int ==> self.particles@[j] == #[trigger] s1.particles@[j],
                forall|j: int|
                    0 <= j < i as int ==> self.particles@[j] == (Particle {
                        predicted_position: predicted_v(#[trigger] s1.particles@[j]),
                        ..s1.particles@[j]
                    }),
                self.wf(),
            decreases n - i,
        {
            let p = &mut self.particles[i];
            p.predict_position();
            proof {
                assert(particle_ok(self.particles@[i as int]));
                if s1.particles@[i as int].is_ghost {
                    lemma_predict_static(s1.particles@[i as int]);
                }
                assert(ghost_static_v(self.particles@[i as int]));
            }
            i = i + 1;
        }

        // Rebuild the spatial grid, then the density fields.
        let ghost s2 = *self;
        self.update_spatial_grid();
        let ghost s2g = *self;
        self.update_density(config);
        let ghost s3 = *self;

        // Forces, into a separate buffer.
        let mut forces: Vec<Vec2> = Vec::new();
        let mut i: usize = 0;
        while i < n
            invariant
                *self == s3,
                self.wf(),
                config.wf(),
                n == self.particles@.len(),
                forces@.len() == i as int,
                i <= n,
                forall|j: int|
                    0 <= j < i as int ==> #[trigger] self.step_force_at_v(
                        *config,
                        j,
                        forces@[j],
                    ),
            decreases n - i,
        {
            let p = self.particles[i];
            let coords = self.get_grid_coords(p.predicted_position);
            let neighbor_particle_indices = self.get_neighbor_particle_indices(
                coords.0,
                coords.1,
            );

            let pressure_force = Physics::calculate_pressure_force_on_particle(
                i,
                &neighbor_particle_indices,
                &self.particles,
                config.mass,
                config.smoothing_radius,
                config,
            );

            let viscosity_force = Physics::calculate_viscosity_from_neighbors(
                i,
                &neighbor_particle_indices,
                &self.particles,
                config.mass,
                config.smoothing_radius,
                config.viscosity_strength,
            );

            forces.push(pressure_force.add(viscosity_force));
            proof {
                assert(neighbor_particle_indices@ == self.neighbors_v(
                    self.coords_of_v(self.particles@[i as int].predicted_position).0,
                    self.coords_of_v(self.particles@[i as int].predicted_position).1,
                ));
                assert(Self::step_force_split_v(
                    self.particles@,
                    neighbor_particle_indices@,
                    *config,
                    i as int,
                    forces@[i as int],
                    pressure_force,
                ));
                assert(self.step_force_at_v(*config, i as int, forces@[i as int]));
            }
            i = i + 1;
        }

        // Commit: apply the buffered force and integrate live particles.
        let mut i: usize = 0;
        while i < n
            invariant
                s3.wf(),
                n == s3.particles@.len(),
                self.particles@.len() == n,
                self.grid == s3.grid,
                self.grid_cols == s3.grid_cols,
                self.grid_rows == s3.grid_rows,
                self.grid_size == s3.grid_size,
                self.world_grid_origin == s3.world_grid_origin,
                self.particle_spawner == s3.particle_spawner,
                forces@.len() == n as int,
                i <= n,
                forall|j: int| i as int <= j < n as int ==> self.particles@[j] == #[trigger] s3.particles@[j],
                forall|j: int|
                    0 <= j < i as int ==> {
                        let p = #[trigger] self.particles@[j];
                        let q = s3.particles@[j];
                        &&& p.is_ghost == q.is_ghost
                        &&& p.radius == q.radius
                        &&& p.density == q.density
                        &&& p.near_density == q.near_density
                        &&& p.predicted_position == q.predicted_position
                        &&& q.is_ghost ==> p == q
                        &&& !q.is_ghost ==> p == integrated_v(
                            Self::committed_v(q, forces@[j]),
                            delta_time as int,
                            gravity,
                        )
                    },
                self.wf(),
            decreases n - i,
        {
            let p = self.particles[i];
            if !p.is_ghost {
                let mut q = p;
                if q.density > 0 {
                    q.acceleration = q.acceleration.add(forces[i].div_scalar(q.density));
                }
                q.update(delta_time, gravity);
                self.particles[i] = q;
                proof {
                    assert(self.particles@[i as int] == integrated_v(
                        Self::committed_v(s3.particles@[i as int], forces@[i as int]),
                        delta_time as int,
                        gravity,
                    ));
                    assert(particle_ok(self.particles@[i as int]));
                    assert(ghost_static_v(self.particles@[i as int]));
                }
            }
            i = i + 1;
        }

        proof {
            assert(self.particles@.len() == post_spawn_len);
            let ghost n0 = s0.particles@.len() as int;
            let ghost nn = self.particles@.len() as int;
            let ghost mid = Self::mid_step_particles_v(s0, *self);

            // Chain the phases: relate the final particles to the
            // post-density snapshot and show the reconstructed
            // pre-integration sequence is exactly that snapshot.
            assert forall|j: int| 0 <= j < nn implies {
                let p = #[trigger] self.particles@[j];
                let q = s3.particles@[j];
                &&& p.predicted_position == q.predicted_position
                &&& p.density == q.density
                &&& p.near_density == q.near_density
                &&& p.is_ghost == q.is_ghost
                &&& p.radius == q.radius
                &&& mid[j] == q
                &&& p.predicted_position == predicted_v(s1.particles@[j])
                &&& q.is_ghost ==> p == q
            } by {
                let q = s3.particles@[j];
                if !q.is_ghost {
                    assert(self.particles@[j] == integrated_v(
                        Self::committed_v(q, forces@[j]),
                        delta_time as int,
                        gravity,
                    ));
                }
                assert(q == (Particle {
                    density: q.density,
                    near_density: q.near_density,
                    ..s2g.particles@[j]
                }));
                assert(s2g.particles@[j] == s2.particles@[j]);
                assert(s2.particles@[j] == (Particle {
                    predicted_position: predicted_v(s1.particles@[j]),
                    ..s1.particles@[j]
                }));
                if j < n0 {
                    assert(s1.particles@[j] == s0.particles@[j]);
                } else {
                    let sp = s0.particle_spawner->Some_0;
                    assert(spawned_particle_v(s1.particles@[j], sp, *config));
                    lemma_predict_static(s1.particles@[j]);
                }
                assert(mid[j] == Self::mid_step_particle_v(s0, *self, j));
            }
            assert(mid =~= s3.particles@);

            // Appended particles came from the spawner strip.
            assert forall|j: int| n0 <= j < nn implies {
                let p = #[trigger] self.particles@[j];
                &&& s0.particle_spawner is Some
                &&& !p.is_ghost
                &&& p.radius == config.particle_radius
                &&& s0.particle_spawner->Some_0.spawn_x_min <= p.predicted_position.x
                    < s0.particle_spawner->Some_0.spawn_x_max
                &&& p.predicted_position.y == s0.particle_spawner->Some_0.spawn_y
            } by {
                let sp = s0.particle_spawner->Some_0;
                assert(spawned_particle_v(s1.particles@[j], sp, *config));
                lemma_predict_static(s1.particles@[j]);
            }

            // Ghost particles kept their motion state bit for bit.
            assert forall|j: int|
                0 <= j < n0 && s0.particles@[j].is_ghost implies {
                let p = #[trigger] self.particles@[j];
                let q = s0.particles@[j];
                &&& p.position == q.position
                &&& p.velocity == q.velocity
                &&& p.acceleration == q.acceleration
                &&& p.predicted_position == q.predicted_position
            } by {
                assert(s1.particles@[j] == s0.particles@[j]);
                lemma_predict_static(s1.particles@[j]);
                assert(s2.particles@[j] == (Particle {
                    predicted_position: predicted_v(s1.particles@[j]),
                    ..s1.particles@[j]
                }));
                let p3 = s3.particles@[j];
                assert(p3 == (Particle {
                    density: p3.density,
                    near_density: p3.near_density,
                    ..s2.particles@[j]
                }));
                assert(self.particles@[j] == p3);
            }

            // The grid holds exactly the predicted-position cell contents.
            assert(self.grid == s3.grid && s3.grid == s2g.grid);
            assert forall|i2: int|
                0 <= i2 < nn implies (#[trigger] s2.particles@[i2]).predicted_position
                == self.particles@[i2].predicted_position by {
                assert(s3.particles@[i2] == (Particle {
                    density: s3.particles@[i2].density,
                    near_density: s3.particles@[i2].near_density,
                    ..s2g.particles@[i2]
                }));
            }
            assert forall|c: int|
                0 <= c < self.grid@.len() implies (#[trigger] self.grid@[c]).particles@
                == self.cell_content_v(c, nn) by {
                assert(s2g.grid@[c].particles@ == s2.cell_content_v(c, nn));
                Self::lemma_cell_content_predicted_congruent(&s2, self, c, nn);
            }

            // Both density fields are the neighbour sums over that grid.
            assert forall|i2: int| 0 <= i2 < nn implies {
                let p = #[trigger] self.particles@[i2];
                &&& p.density as int == self.density_at_v(
                    i2,
                    config.mass as int,
                    config.smoothing_radius as int,
                )
                &&& p.near_density as int == self.near_density_at_v(
                    i2,
                    config.mass as int,
                    config.smoothing_radius as int,
                )
            } by {
                assert(s3.particles@[i2].density as int == s2g.density_at_v(
                    i2,
                    config.mass as int,
                    config.smoothing_radius as int,
                ));
                assert(s3.particles@[i2].near_density as int == s2g.near_density_at_v(
                    i2,
                    config.mass as int,
                    config.smoothing_radius as int,
                ));
                let point = s2g.particles@[i2].predicted_position;
                assert(point == self.particles@[i2].predicted_position);
                let coords = s2g.coords_of_v(point);
                assert(coords == self.coords_of_v(self.particles@[i2].predicted_position));
                Self::lemma_neighbors_congruent(&s2g, self, coords.0, coords.1, 9);
                let nbrs = self.neighbors_v(coords.0, coords.1);
                self.lemma_neighbors_prefix_valid(coords.0, coords.1, 9);
                lemma_density_sum_congruent(
                    point,
                    nbrs,
                    s2g.particles@,
                    self.particles@,
                    config.mass as int,
                    config.smoothing_radius as int,
                    nbrs.len() as int,
                );
            }

            // Every live particle is the integration of its
            // pre-integration state under the buffered step force.
            assert forall|i2: int|
                0 <= i2 < nn && !(#[trigger] self.particles@[i2]).is_ghost implies exists|
                f: Vec2,
                pf: Vec2,
            |
                #[trigger] Self::step_integrated_v(
                    s0,
                    *self,
                    *config,
                    delta_time as int,
                    gravity,
                    i2,
                    f,
                    pf,
                ) by {
                assert(s3.step_force_at_v(*config, i2, forces@[i2]));
                let coords3 = s3.coords_of_v(s3.particles@[i2].predicted_position);
                let pf0 = choose|pf: Vec2|
                    Self::step_force_split_v(
                        s3.particles@,
                        s3.neighbors_v(coords3.0, coords3.1),
                        *config,
                        i2,
                        forces@[i2],
                        pf,
                    );
                assert(Self::step_force_split_v(
                    s3.particles@,
                    s3.neighbors_v(coords3.0, coords3.1),
                    *config,
                    i2,
                    forces@[i2],
                    pf0,
                ));
                assert(coords3 == self.coords_of_v(self.particles@[i2].predicted_position));
                Self::lemma_neighbors_congruent(&s3, self, coords3.0, coords3.1, 9);
                assert(self.particles@[i2] == integrated_v(
                    Self::committed_v(s3.particles@[i2], forces@[i2]),
                    delta_time as int,
                    gravity,
                ));
                assert(Self::step_integrated_v(
                    s0,
                    *self,
                    *config,
                    delta_time as int,
                    gravity,
                    i2,
                    forces@[i2],
                    pf0,
                ));
            }

            assert(Self::step_ensures_v(s0, *self, *config, delta_time as int, gravity));
        }
    }

    /// Apply the pointer force around `click_point` to every particle
    /// within the interaction radius.
    pub fn handle_interaction(
        &mut self,
        click_point: Vec2,
        interaction_type: InteractionType,
        config: &Config,
    )
        requires
            old(self).wf(),
            config.wf(),
        ensures
            final(self).wf(),
            final(self).grid == old(self).grid,
            final(self).grid_cols == old(self).grid_cols,
            final(self).grid_rows == old(self).grid_rows,
            final(self).grid_size == old(self).grid_size,
            final(self).world_grid_origin == old(self).world_grid_origin,
            final(self).particle_spawner == old(self).particle_spawner,
            final(self).particles@.len() == old(self).particles@.len(),
            forall|i: int|
                0 <= i < old(self).particles@.len() ==> final(self).particles@[i] == interact_v(
                    #[trigger] old(self).particles@[i],
                    click_point,
                    interaction_type,
                    *config,
                ),
    {
        let radius = config.interaction_radius;
        let strength = config.interaction_strength;
        let n = self.particles.len();
        let mut i: usize = 0;
        while i < n
            invariant
                self.wf(),
                config.wf(),
                n == self.particles@.len(),
                n == old(self).particles@.len(),
                self.grid == old(self).grid,
                self.grid_cols == old(self).grid_cols,
                self.grid_rows == old(self).grid_rows,
                self.grid_size == old(self).grid_size,
                self.world_grid_origin == old(self).world_grid_origin,
                self.particle_spawner == old(self).particle_spawner,
                radius == config.interaction_radius,
                strength == config.interaction_strength,
                i <= n,
                forall|j: int|
                    0 <= j < i as int ==> self.particles@[j] == interact_v(
                        #[trigger] old(self).particles@[j],
                        click_point,
                        interaction_type,
                        *config,
                    ),
                forall|j: int|
                    i as int <= j < n as int ==> #[trigger] self.particles@[j] == old(
                        self,
                    ).particles@[j],
            decreases n - i,
        {
            let p = self.particles[i];
            let d = click_point.distance(p.position);
            if 0 < d && d < radius {
                let centre_t: i64;
                if config.fluid_type == FluidType::Liquid {
                    let nd = fx_div(d, radius);
                    let t6 = fx_mul(fx_mul(fx_mul(fx_mul(fx_mul(nd, nd), nd), nd), nd), nd);
                    let c = fx_sub(10_000, t6);
                    centre_t = if c >= 0 {
                        c
                    } else {
                        0
                    };
                } else {
                    centre_t = fx_sub(10_000, fx_div(d, radius));
                }

                let dir_to_input_point = Vec2 {
                    x: fx_div(fx_sub(click_point.x, p.position.x), d),
                    y: fx_div(fx_sub(click_point.y, p.position.y), d),
                };

                let base_force_dir = if interaction_type == InteractionType::Pull {
                    dir_to_input_point
                } else {
                    dir_to_input_point.neg()
                };

                let acc_change = base_force_dir.scale(strength).sub(p.velocity).scale(centre_t);
                self.particles[i] = Particle {
                    acceleration: p.acceleration.add(acc_change),
                    ..p
                };
            }
            i = i + 1;
        }
    }
}

} // verus!
