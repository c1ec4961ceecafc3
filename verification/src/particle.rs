//! Particle records and per-particle prediction and integration.

use vstd::prelude::*;

use crate::fixed::{vadd_v, vec2_ok, vscale_int_v, vscale_v, Vec2, SCALE};
use crate::simulation::DISTANCE_ZOOM;

verus! {

/// A particle at rest predicts its own position: the look-ahead along a
/// zero velocity moves nothing.
pub proof fn lemma_predict_static(p: Particle)
    requires
        p.velocity == (Vec2 { x: 0i64, y: 0i64 }),
        vec2_ok(p.position),
    ensures
        predicted_v(p) == p.position,
{
    vstd::arithmetic::div_mod::lemma_div_of0(SCALE as int);
}

/// Every positional field of the particle lies in the saturating range.
pub open spec fn particle_ok(p: Particle) -> bool {
    &&& vec2_ok(p.position)
    &&& vec2_ok(p.predicted_position)
    &&& vec2_ok(p.velocity)
    &&& vec2_ok(p.acceleration)
}

/// A ghost particle is a static density source: it never moves, so its
/// velocity is zero and its predicted position is its position.
pub open spec fn ghost_static_v(p: Particle) -> bool {
    p.is_ghost ==> p.velocity == (Vec2 { x: 0i64, y: 0i64 }) && p.predicted_position == p.position
}

/// Look-ahead time slice used for position prediction: one thirtieth of a
/// second (in `SCALE` sub-units), a fixed short interval rather than the
/// frame delta, to smooth force evaluation against frame-rate jitter.
pub const MOTION_LOOKAHEAD: i64 = 333;

/// One particle of the store. Ghost particles act purely as density and
/// pressure sources: integration and collision never move them.
#[derive(Clone, Copy, PartialEq, Eq, Structural, Debug)]
pub struct Particle {
    pub position: Vec2,
    pub predicted_position: Vec2,
    pub velocity: Vec2,
    pub acceleration: Vec2,
    pub radius: i64,
    pub density: i64,
    pub near_density: i64,
    pub is_ghost: bool,
}

/// Spec mirror of one prediction step.
pub open spec fn predicted_v(p: Particle) -> Vec2 {
    vadd_v(p.position, vscale_v(p.velocity, MOTION_LOOKAHEAD as int))
}

/// Spec mirror of one integration step for a live particle.
pub open spec fn integrated_v(p: Particle, delta_time: int, gravity: Vec2) -> Particle {
    let acc = vadd_v(p.acceleration, vscale_int_v(gravity, DISTANCE_ZOOM as int));
    let vel = vadd_v(p.velocity, vscale_v(acc, delta_time));
    let pos = vadd_v(p.position, vscale_v(vel, delta_time));
    Particle { position: pos, velocity: vel, acceleration: Vec2 { x: 0i64, y: 0i64 }, ..p }
}

impl Particle {
    /// A fresh particle at rest.
    pub fn new(position: Vec2, radius: i64, is_ghost: bool) -> (p: Particle)
        ensures
            p == (Particle {
                position,
                predicted_position: position,
                velocity: Vec2 { x: 0i64, y: 0i64 },
                acceleration: Vec2 { x: 0i64, y: 0i64 },
                radius,
                density: 0i64,
                near_density: 0i64,
                is_ghost,
            }),
    {
        Particle {
            position,
            predicted_position: position,
            velocity: Vec2::zero(),
            acceleration: Vec2::zero(),
            radius,
            density: 0,
            near_density: 0,
            is_ghost,
        }
    }

    /// Look ahead a fixed time slice along the current velocity.
    pub fn predict_position(&mut self)
        ensures
            *final(self) == (Particle { predicted_position: predicted_v(*old(self)), ..*old(self) }),
    {
        self.predicted_position = self.position.add(self.velocity.scale(MOTION_LOOKAHEAD));
    }

    /// Apply gravity, integrate velocity and position, and reset the
    /// accumulated acceleration. Ghost particles are left untouched.
    pub fn update(&mut self, delta_time: i64, gravity: Vec2)
        ensures
            old(self).is_ghost ==> *final(self) == *old(self),
            !old(self).is_ghost ==> *final(self) == integrated_v(
                *old(self),
                delta_time as int,
                gravity,
            ),
    {
        if self.is_ghost {
            return ;
        }
        self.acceleration = self.acceleration.add(gravity.scale_int(DISTANCE_ZOOM));
        self.velocity = self.velocity.add(self.acceleration.scale(delta_time));
        self.position = self.position.add(self.velocity.scale(delta_time));
        self.acceleration = Vec2::zero();
    }
}

} // verus!
