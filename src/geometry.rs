use vstd::prelude::*;

verus! {

/// Steps in one screen unit.
pub const STEPS_PER_UNIT: i64 = 3;

/// Width of the screen, in steps (800 units).
pub const SCREEN_WIDTH: i64 = 2400;

/// Height of the screen, in steps (500 units).
pub const SCREEN_HEIGHT: i64 = 1500;

/// A position on the screen, in steps; y grows downwards.
#[derive(Debug, Clone, Copy, PartialEq, Eq, Structural)]
pub struct Point {
    pub x: i64,
    pub y: i64,
}

impl Point {
    /// The point at `(x, y)` given in whole screen units.
    pub fn at_units(x: i32, y: i32) -> (r: Point)
        ensures
            r.x == x * STEPS_PER_UNIT,
            r.y == y * STEPS_PER_UNIT,
    {
        Point { x: x as i64 * STEPS_PER_UNIT, y: y as i64 * STEPS_PER_UNIT }
    }
}

/// One primitive that rendering asks the graphics engine to draw.
#[derive(Debug, Clone, Copy, PartialEq, Eq, Structural)]
pub enum Shape {
    /// A straight line of the given width.
    Line { from: Point, to: Point, width: i64 },
    /// A filled circle.
    Circle { center: Point, radius: i64 },
    /// A filled axis-aligned square.
    Square { center: Point, side: i64 },
    /// The score, centred at the top of the screen.
    Score(u32),
}

} // verus!
