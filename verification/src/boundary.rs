//! Axis-aligned boundary box with velocity-reflecting collision.
//!
//! Per axis: a live particle whose edge (position offset by its radius)
//! has crossed a wall while still moving toward it is clamped onto the
//! wall and its wall-normal velocity is flipped and scaled by the damping
//! coefficient; a particle moving away from a wall it already penetrates
//! is left untouched, so it cannot stick.

use vstd::prelude::*;

use crate::fixed::{fx_add_v, fx_mul_v, fx_sub_v, fx_add, fx_mul, fx_sub, Vec2};
use crate::particle::Particle;

verus! {

/// The rectangular play area and its damping coefficient.
pub struct Boundary {
    pub pos: Vec2,
    pub width: i64,
    pub height: i64,
    pub damping: i64,
}

/// One axis of collision resolution: new position and velocity of a live
/// particle between the walls `wall_min` and `wall_max`.
pub open spec fn collide_axis_v(
    p: int,
    v: int,
    wall_min: int,
    wall_max: int,
    radius: int,
    damping: int,
) -> (int, int) {
    let lo = fx_add_v(wall_min, radius);
    let hi = fx_sub_v(wall_max, radius);
    if p <= lo {
        if v < 0 {
            (lo, fx_mul_v(fx_sub_v(0, v), damping))
        } else {
            (p, v)
        }
    } else if p >= hi {
        if v > 0 {
            (hi, fx_mul_v(fx_sub_v(0, v), damping))
        } else {
            (p, v)
        }
    } else {
        (p, v)
    }
}

/// Collision resolution for one particle: both axes independently; ghost
/// particles are exempt.
pub open spec fn collide_v(b: Boundary, p: Particle) -> Particle {
    if p.is_ghost {
        p
    } else {
        let x = collide_axis_v(
            p.position.x as int,
            p.velocity.x as int,
            b.pos.x as int,
            fx_add_v(b.pos.x as int, b.width as int),
            p.radius as int,
            b.damping as int,
        );
        let y = collide_axis_v(
            p.position.y as int,
            p.velocity.y as int,
            b.pos.y as int,
            fx_add_v(b.pos.y as int, b.height as int),
            p.radius as int,
            b.damping as int,
        );
        Particle {
            position: Vec2 { x: x.0 as i64, y: y.0 as i64 },
            velocity: Vec2 { x: x.1 as i64, y: y.1 as i64 },
            ..p
        }
    }
}

/// Boundary containment, per axis: a particle that has crossed a wall
/// while moving toward it ends up exactly on the wall offset by its
/// radius, with the wall-normal velocity flipped and scaled by the
/// damping factor; a particle moving away from a wall it already
/// penetrates, and a particle between the walls, are not altered.
pub proof fn lemma_boundary_containment(
    p: int,
    v: int,
    wall_min: int,
    wall_max: int,
    radius: int,
    damping: int,
)
    ensures
        p <= fx_add_v(wall_min, radius) && v < 0 ==> collide_axis_v(
            p,
            v,
            wall_min,
            wall_max,
            radius,
            damping,
        ) == (fx_add_v(wall_min, radius), fx_mul_v(fx_sub_v(0, v), damping)),
        p <= fx_add_v(wall_min, radius) && v >= 0 ==> collide_axis_v(
            p,
            v,
            wall_min,
            wall_max,
            radius,
            damping,
        ) == (p, v),
        fx_add_v(wall_min, radius) < p < fx_sub_v(wall_max, radius) ==> collide_axis_v(
            p,
            v,
            wall_min,
            wall_max,
            radius,
            damping,
        ) == (p, v),
        p > fx_add_v(wall_min, radius) && p >= fx_sub_v(wall_max, radius) && v > 0
            ==> collide_axis_v(p, v, wall_min, wall_max, radius, damping) == (
            fx_sub_v(wall_max, radius),
            fx_mul_v(fx_sub_v(0, v), damping),
        ),
        p > fx_add_v(wall_min, radius) && p >= fx_sub_v(wall_max, radius) && v <= 0
            ==> collide_axis_v(p, v, wall_min, wall_max, radius, damping) == (p, v),
{
}

/// Boundary containment, derived form: whenever every wall a particle
/// penetrates is one it is still moving toward, one resolution leaves it
/// between the walls, on this axis in `[wall + radius, wall_max - radius]`.
/// The coordinate bounds keep the fixed-point wall offsets exact (they
/// exclude positions near the saturation corners at the edge of the `i64`
/// range, where `wall + radius` would clamp).
pub proof fn lemma_collision_containment(
    p: int,
    v: int,
    wall_min: int,
    wall_max: int,
    radius: int,
    damping: int,
)
    requires
        -1_000_000_000_000 <= wall_min <= 1_000_000_000_000,
        -1_000_000_000_000 <= wall_max <= 1_000_000_000_000,
        0 <= radius <= 1_000_000_000,
        wall_min + 2 * radius <= wall_max,
        p <= fx_add_v(wall_min, radius) ==> v < 0,
        p >= fx_sub_v(wall_max, radius) ==> v > 0,
    ensures
        fx_add_v(wall_min, radius) <= collide_axis_v(p, v, wall_min, wall_max, radius, damping).0
            <= fx_sub_v(wall_max, radius),
{
}

impl Boundary {
    /// A box centred on the screen whose sides are multiples of the grid
    /// size, two grid cells smaller than the screen in each direction.
    pub fn new(damping: i64, grid_size: i64, screen_width: i64, screen_height: i64) -> (b:
        Boundary)
        requires
            0 < grid_size <= 1_000_000_000_000,
            0 <= screen_width <= 1_000_000_000_000,
            0 <= screen_height <= 1_000_000_000_000,
        ensures
            b.width == (screen_width as int / grid_size as int) * grid_size - 2 * grid_size,
            b.height == (screen_height as int / grid_size as int) * grid_size - 2 * grid_size,
            b.pos.x == (screen_width - b.width) / 2,
            b.pos.y == (screen_height - b.height) / 2,
            b.damping == damping,
    {
        proof {
            vstd::arithmetic::div_mod::lemma_fundamental_div_mod(
                screen_width as int,
                grid_size as int,
            );
            vstd::arithmetic::div_mod::lemma_mod_bound(screen_width as int, grid_size as int);
            vstd::arithmetic::div_mod::lemma_fundamental_div_mod(
                screen_height as int,
                grid_size as int,
            );
            vstd::arithmetic::div_mod::lemma_mod_bound(screen_height as int, grid_size as int);
        }
        let cols: u64 = (screen_width as u64) / (grid_size as u64);
        let rows: u64 = (screen_height as u64) / (grid_size as u64);
        proof {
            assert(cols as int * grid_size as int == grid_size as int * cols as int)
                by (nonlinear_arith);
            assert(rows as int * grid_size as int == grid_size as int * rows as int)
                by (nonlinear_arith);
        }
        let width: i64 = (cols * (grid_size as u64)) as i64 - 2 * grid_size;
        let height: i64 = (rows * (grid_size as u64)) as i64 - 2 * grid_size;
        let pos = Vec2::new(
            ((screen_width - width) as u64 / 2) as i64,
            ((screen_height - height) as u64 / 2) as i64,
        );

        Boundary { pos, width, height, damping }
    }

    /// Resolve wall collisions for every live particle.
    pub fn check_collision(&self, particles: &mut Vec<Particle>)
        ensures
            final(particles)@.len() == old(particles)@.len(),
            forall|i: int|
                0 <= i < old(particles)@.len() ==> final(particles)@[i] == collide_v(
                    *self,
                    #[trigger] old(particles)@[i],
                ),
    {
        let n = particles.len();
        let mut i: usize = 0;
        while i < n
            invariant
                n == particles@.len(),
                n == old(particles)@.len(),
                i <= n,
                forall|j: int|
                    0 <= j < i ==> particles@[j] == collide_v(
                        *self,
                        #[trigger] old(particles)@[j],
                    ),
                forall|j: int| i <= j < n ==> particles@[j] == #[trigger] old(particles)@[j],
            decreases n - i,
        {
            let p = particles[i];
            if !p.is_ghost {
                let mut position = p.position;
                let mut velocity = p.velocity;
                let lo_x = fx_add(self.pos.x, p.radius);
                let hi_x = fx_sub(fx_add(self.pos.x, self.width), p.radius);
                if position.x <= lo_x {
                    if velocity.x < 0 {
                        position.x = lo_x;
                        velocity.x = fx_mul(fx_sub(0, velocity.x), self.damping);
                    }
                } else if position.x >= hi_x {
                    if velocity.x > 0 {
                        position.x = hi_x;
                        velocity.x = fx_mul(fx_sub(0, velocity.x), self.damping);
                    }
                }
                let lo_y = fx_add(self.pos.y, p.radius);
                let hi_y = fx_sub(fx_add(self.pos.y, self.height), p.radius);
                if position.y <= lo_y {
                    if velocity.y < 0 {
                        position.y = lo_y;
                        velocity.y = fx_mul(fx_sub(0, velocity.y), self.damping);
                    }
                } else if position.y >= hi_y {
                    if velocity.y > 0 {
                        position.y = hi_y;
                        velocity.y = fx_mul(fx_sub(0, velocity.y), self.damping);
                    }
                }
                particles[i] = Particle { position, velocity, ..p };
            }
            i = i + 1;
        }
    }
}

} // verus!
