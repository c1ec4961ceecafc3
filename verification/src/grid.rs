//! One cell of the uniform spatial grid: the indices of the particles
//! whose predicted position currently falls inside it.

use vstd::prelude::*;

use crate::fixed::Vec2;

verus! {

/// A grid cell. The index list is rebuilt from scratch every step; the
/// cell's world position and size only serve the surrounding tooling.
pub struct GridCell {
    pub particles: Vec<usize>,
    pub grid_size: i64,
    pub position: Vec2,
}

impl GridCell {
    /// An empty cell at a given world position.
    pub fn new(grid_size: i64, position: Vec2) -> (c: GridCell)
        ensures
            c.particles@ == Seq::<usize>::empty(),
            c.grid_size == grid_size,
            c.position == position,
    {
        GridCell { particles: Vec::new(), grid_size, position }
    }

    /// Append one particle index.
    pub fn add_particle(&mut self, particle: usize)
        ensures
            final(self).particles@ == old(self).particles@.push(particle),
            final(self).grid_size == old(self).grid_size,
            final(self).position == old(self).position,
    {
        self.particles.push(particle);
    }

    /// Empty the cell.
    pub fn clear(&mut self)
        ensures
            final(self).particles@ == Seq::<usize>::empty(),
            final(self).grid_size == old(self).grid_size,
            final(self).position == old(self).position,
    {
        self.particles.clear();
    }
}

} // verus!
