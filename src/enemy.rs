use vstd::prelude::*;
use crate::geometry::{Point, Shape};

verus! {

/// Horizontal distance an enemy drifts left in one tick (800/150 units).
pub const ENEMY_SPEED: i64 = 16;

/// Side of an enemy's square (20 units).
pub const ENEMY_SIZE: i64 = 60;

/// Chance per tick that a new enemy appears, as a ratio: the numerator.
pub const ENEMY_SPAWN_NUMERATOR: u32 = 2;

/// Chance per tick that a new enemy appears, as a ratio: the denominator.
pub const ENEMY_SPAWN_DENOMINATOR: u32 = 5;

/// An enemy: a position that drifts left, never up or down.
#[derive(Debug, Clone, Copy, PartialEq, Eq, Structural)]
pub struct Enemy {
    pub pos: Point,
}

impl Enemy {
    /// An enemy at `pos`.
    pub fn new(pos: Point) -> (r: Enemy)
        ensures
            r.pos == pos,
    {
        Enemy { pos }
    }

    /// Advances the enemy by one tick. Its x is not bounded below.
    pub fn update(&mut self)
        requires
            old(self).pos.x >= i64::MIN + ENEMY_SPEED,
        ensures
            final(self).pos.x == old(self).pos.x - ENEMY_SPEED,
            final(self).pos.y == old(self).pos.y,
    {
        self.pos.x = self.pos.x - ENEMY_SPEED;
    }

    /// The square that stands for the enemy on screen.
    pub fn draw(&self) -> (r: Shape)
        ensures
            r == (Shape::Square { center: self.pos, side: ENEMY_SIZE }),
    {
        Shape::Square { center: self.pos, side: ENEMY_SIZE }
    }
}

} // verus!
