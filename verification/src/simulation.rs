//! The top-level simulation state: configuration, fluid, boundary and the
//! current pointer interaction, advanced one frame at a time.

use vstd::prelude::*;

use crate::boundary::{collide_v, Boundary};
use crate::config::{Config, InteractionType};
use crate::fixed::Vec2;
use crate::fluid::{interact_v, Fluid};
use crate::particle::{ghost_static_v, particle_ok, Particle};

verus! {

/// Unscaled factor that decouples kernel numerics from world units: kernel
/// arguments are divided by it, gravity is multiplied by it.
pub const DISTANCE_ZOOM: i64 = 1000;

/// The whole simulation: the fluid, its boundary box, the configuration,
/// and the pause / pointer state fed in from outside.
pub struct Simulation {
    pub is_running: bool,
    pub is_paused: bool,
    pub config: Config,
    pub fluid: Fluid,
    pub boundary: Boundary,
    pub click_point: Option<Vec2>,
    pub interaction_type: Option<InteractionType>,
}

impl Simulation {
    /// Configuration and fluid are sound.
    pub open spec fn wf(&self) -> bool {
        &&& self.config.wf()
        &&& self.fluid.wf()
    }

    /// What one frame does, witnessed by the fluid state right after the
    /// step: the full step relation, then the pointer interaction (when
    /// one is active) on every particle, then boundary collision
    /// resolution on every particle.
    pub open spec fn frame_witness_v(
        pre: Simulation,
        post: Simulation,
        stepped: Fluid,
        delta_time: int,
    ) -> bool {
        &&& stepped.wf()
        &&& Fluid::step_ensures_v(pre.fluid, stepped, pre.config, delta_time, pre.config.gravity)
        &&& {
            let after_interaction: Seq<Particle> = if pre.click_point is Some
                && pre.interaction_type is Some {
                Seq::new(
                    stepped.particles@.len(),
                    |i: int|
                        interact_v(
                            stepped.particles@[i],
                            pre.click_point->Some_0,
                            pre.interaction_type->Some_0,
                            pre.config,
                        ),
                )
            } else {
                stepped.particles@
            };
            &&& post.fluid.grid == stepped.grid
            &&& post.fluid.grid_cols == stepped.grid_cols
            &&& post.fluid.grid_rows == stepped.grid_rows
            &&& post.fluid.grid_size == stepped.grid_size
            &&& post.fluid.world_grid_origin == stepped.world_grid_origin
            &&& post.fluid.particle_spawner == stepped.particle_spawner
            &&& post.fluid.particles@.len() == after_interaction.len()
            &&& forall|i: int|
                0 <= i < after_interaction.len() ==> post.fluid.particles@[i] == collide_v(
                    pre.boundary,
                    #[trigger] after_interaction[i],
                )
        }
    }

    /// Build the boundary from the screen size and the initial fluid from
    /// the configuration.
    pub fn new(config: Config, screen_width: i64, screen_height: i64) -> (s: Simulation)
        requires
            config.wf(),
            3 * config.smoothing_radius <= screen_width <= 1_000_000_000_000,
            3 * config.smoothing_radius <= screen_height <= 1_000_000_000_000,
            screen_width <= config.smoothing_radius * 30_000,
            screen_height <= config.smoothing_radius * 30_000,
        ensures
            s.wf(),
            s.is_running,
            !s.is_paused,
            s.config == config,
            s.click_point is None,
            s.interaction_type is None,
            s.boundary.damping == config.boundary_damping,
            s.boundary.width == (screen_width as int / config.smoothing_radius as int)
                * config.smoothing_radius - 2 * config.smoothing_radius,
            s.boundary.height == (screen_height as int / config.smoothing_radius as int)
                * config.smoothing_radius - 2 * config.smoothing_radius,
            s.boundary.pos.x == (screen_width - s.boundary.width) / 2,
            s.boundary.pos.y == (screen_height - s.boundary.height) / 2,
            Fluid::constructed_v(s.fluid, config, s.boundary),
    {
        proof {
            let gs = config.smoothing_radius as int;
            let qw = screen_width as int / gs;
            let qh = screen_height as int / gs;
            vstd::arithmetic::div_mod::lemma_div_is_ordered(3 * gs, screen_width as int, gs);
            vstd::arithmetic::div_mod::lemma_div_is_ordered(3 * gs, screen_height as int, gs);
            vstd::arithmetic::div_mod::lemma_div_multiples_vanish(3, gs);
            vstd::arithmetic::div_mod::lemma_fundamental_div_mod(screen_width as int, gs);
            vstd::arithmetic::div_mod::lemma_mod_bound(screen_width as int, gs);
            vstd::arithmetic::div_mod::lemma_fundamental_div_mod(screen_height as int, gs);
            vstd::arithmetic::div_mod::lemma_mod_bound(screen_height as int, gs);
            assert(3 * gs <= qw * gs && qw * gs == gs * qw) by (nonlinear_arith)
                requires
                    3 <= qw,
                    0 < gs,
            ;
            assert(3 * gs <= qh * gs && qh * gs == gs * qh) by (nonlinear_arith)
                requires
                    3 <= qh,
                    0 < gs,
            ;
        }
        let boundary = Boundary::new(
            config.boundary_damping,
            config.smoothing_radius,
            screen_width,
            screen_height,
        );
        let fluid = Fluid::from_config(&config, &boundary);

        Simulation {
            is_running: true,
            is_paused: false,
            config,
            fluid,
            boundary,
            click_point: None,
            interaction_type: None,
        }
    }

    /// Record (or clear) the pointer interaction the next step applies.
    pub fn set_interaction(
        &mut self,
        click_point: Option<Vec2>,
        interaction_type: Option<InteractionType>,
    )
        ensures
            *final(self) == (Simulation { click_point, interaction_type, ..*old(self) }),
    {
        self.click_point = click_point;
        self.interaction_type = interaction_type;
    }

    /// Pause or resume the simulation.
    pub fn set_paused(&mut self, paused: bool)
        ensures
            *final(self) == (Simulation { is_paused: paused, ..*old(self) }),
    {
        self.is_paused = paused;
    }

    /// One frame: a full fluid step, the pointer interaction if one is
    /// active, then boundary collision resolution. A paused simulation is
    /// left untouched. Without an active interaction, ghost particles are
    /// bit-identical afterwards.
    pub fn update(&mut self, delta_time: i64)
        requires
            old(self).wf(),
        ensures
            final(self).wf(),
            old(self).is_paused ==> *final(self) == *old(self),
            final(self).config == old(self).config,
            final(self).boundary == old(self).boundary,
            final(self).is_running == old(self).is_running,
            final(self).is_paused == old(self).is_paused,
            final(self).click_point == old(self).click_point,
            final(self).interaction_type == old(self).interaction_type,
            old(self).fluid.particles@.len() <= final(self).fluid.particles@.len(),
            !old(self).is_paused ==> final(self).fluid.particles@.len() == old(
                self,
            ).fluid.post_spawn_len_v(old(self).config, delta_time as int),
            !old(self).is_paused ==> exists|stepped: Fluid|
                #[trigger] Self::frame_witness_v(
                    *old(self),
                    *final(self),
                    stepped,
                    delta_time as int,
                ),
            !old(self).is_paused && old(self).click_point is None ==> forall|i: int|
                0 <= i < old(self).fluid.particles@.len() && old(
                    self,
                ).fluid.particles@[i].is_ghost ==> {
                    let p = #[trigger] final(self).fluid.particles@[i];
                    let q = old(self).fluid.particles@[i];
                    &&& p.position == q.position
                    &&& p.velocity == q.velocity
                    &&& p.acceleration == q.acceleration
                    &&& p.predicted_position == q.predicted_position
                },
    {
        if self.is_paused {
            return ;
        }

        self.fluid.update(delta_time, self.config.gravity, &self.config);
        let ghost stepped = self.fluid;

        if let Some(click_point) = self.click_point {
            if let Some(interaction_type) = self.interaction_type {
                self.fluid.handle_interaction(click_point, interaction_type, &self.config);
            }
        }
        proof {
            if old(self).click_point is Some && old(self).interaction_type is Some {
                assert(self.fluid.particles@ =~= Seq::new(
                    stepped.particles@.len(),
                    |i: int|
                        interact_v(
                            stepped.particles@[i],
                            old(self).click_point->Some_0,
                            old(self).interaction_type->Some_0,
                            old(self).config,
                        ),
                ));
            }
        }

        let ghost pre_collision = self.fluid;
        self.boundary.check_collision(&mut self.fluid.particles);
        proof {
            assert forall|i: int|
                0 <= i < self.fluid.particles@.len() implies particle_ok(
                #[trigger] self.fluid.particles@[i],
            ) && ghost_static_v(self.fluid.particles@[i]) by {
                assert(self.fluid.particles@[i] == collide_v(
                    self.boundary,
                    pre_collision.particles@[i],
                ));
                assert(particle_ok(pre_collision.particles@[i]));
                assert(ghost_static_v(pre_collision.particles@[i]));
            }
            assert forall|c: int|
                0 <= c < self.fluid.grid@.len() implies crate::fluid::cell_indices_valid(
                #[trigger] self.fluid.grid@[c],
                self.fluid.particles@.len() as int,
            ) by {
                assert(crate::fluid::cell_indices_valid(
                    pre_collision.grid@[c],
                    pre_collision.particles@.len() as int,
                ));
            }
            assert(self.fluid.wf());
            assert(Self::frame_witness_v(*old(self), *self, stepped, delta_time as int));
            if old(self).click_point is None {
                assert forall|i: int|
                    0 <= i < old(self).fluid.particles@.len() && old(
                    self,
                ).fluid.particles@[i].is_ghost implies {
                    let p = #[trigger] self.fluid.particles@[i];
                    let q = old(self).fluid.particles@[i];
                    &&& p.position == q.position
                    &&& p.velocity == q.velocity
                    &&& p.acceleration == q.acceleration
                    &&& p.predicted_position == q.predicted_position
                } by {
                    assert(pre_collision.particles@[i].is_ghost);
                    assert(self.fluid.particles@[i] == collide_v(
                        self.boundary,
                        pre_collision.particles@[i],
                    ));
                }
            }
        }
    }
}

} // verus!
