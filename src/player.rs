use vstd::prelude::*;
use crate::geometry::{Point, Shape, SCREEN_HEIGHT, STEPS_PER_UNIT};

verus! {

/// Vertical distance the player covers in one tick (5 units).
pub const PLAYER_SPEED: i64 = 15;

/// Radius of the player's circle (10 units).
pub const PLAYER_SIZE: i64 = 30;

/// The player's fixed lane, 3/40 of the screen width (60 units).
pub const PLAYER_X_POS: i64 = 180;

/// The lowest the player can stand: one unit above the bottom edge.
pub const PLAYER_Y_MAX: i64 = SCREEN_HEIGHT - STEPS_PER_UNIT;

/// The player's vertical intent.
#[derive(Debug, Clone, Copy, PartialEq, Eq, Structural)]
pub enum Dir {
    Up,
    Down,
    Stationary,
}

/// The player: a position and the direction it is moving in.
#[derive(Debug, Clone, Copy, PartialEq, Eq, Structural)]
pub struct Shooter {
    pub pos: Point,
    pub dir: Dir,
}

/// The change of y that one tick applies in direction `d`.
pub open spec fn dir_delta(d: Dir) -> int {
    match d {
        Dir::Up => -PLAYER_SPEED,
        Dir::Down => PLAYER_SPEED as int,
        Dir::Stationary => 0,
    }
}

/// `y` moved by one tick in direction `d`, then clamped into the screen.
pub open spec fn step_y(y: int, d: Dir) -> int {
    let m = y + dir_delta(d);
    if m < 0 {
        0
    } else if m > PLAYER_Y_MAX {
        PLAYER_Y_MAX as int
    } else {
        m
    }
}

impl Shooter {
    /// The player at the start of a game: in its lane, halfway down, still.
    pub fn new() -> (r: Shooter)
        ensures
            r.pos.x == PLAYER_X_POS,
            r.pos.y == SCREEN_HEIGHT / 2,
            r.dir == Dir::Stationary,
    {
        Shooter { pos: Point { x: PLAYER_X_POS, y: SCREEN_HEIGHT / 2 }, dir: Dir::Stationary }
    }

    /// Advances the player by one tick.
    pub fn update(&mut self)
        ensures
            final(self).pos.y == step_y(old(self).pos.y as int, old(self).dir),
            final(self).pos.x == old(self).pos.x,
            final(self).dir == old(self).dir,
            0 <= final(self).pos.y <= PLAYER_Y_MAX,
    {
        let moved: i128 = match self.dir {
            Dir::Up => self.pos.y as i128 - PLAYER_SPEED as i128,
            Dir::Down => self.pos.y as i128 + PLAYER_SPEED as i128,
            Dir::Stationary => self.pos.y as i128,
        };
        if moved < 0 {
            self.pos.y = 0;
        } else if moved > PLAYER_Y_MAX as i128 {
            self.pos.y = PLAYER_Y_MAX;
        } else {
            self.pos.y = moved as i64;
        }
    }

    /// Sets the direction the player moves in from the next tick on.
    pub fn set_direction(&mut self, d: Dir)
        ensures
            *final(self) == (Shooter { pos: old(self).pos, dir: d }),
    {
        self.dir = d;
    }

    /// The circle that stands for the player on screen.
    pub fn draw(&self) -> (r: Shape)
        ensures
            r == (Shape::Circle { center: self.pos, radius: PLAYER_SIZE }),
    {
        Shape::Circle { center: self.pos, radius: PLAYER_SIZE }
    }
}

} // verus!
