use vstd::prelude::*;
use crate::geometry::{Point, Shape, SCREEN_HEIGHT};
use crate::player::{PLAYER_SIZE, PLAYER_X_POS};

verus! {

/// Width of the line that marks the player's side of the screen (4 units).
pub const LINE_WIDTH: i64 = 12;

/// Horizontal position of that line: the right edge of the player's circle.
pub const LINE_X: i64 = PLAYER_X_POS + PLAYER_SIZE;

/// The vertical line just right of the player's lane, top to bottom.
pub fn draw_line() -> (r: Shape)
    ensures
        r == (Shape::Line {
            from: Point { x: LINE_X, y: 0 },
            to: Point { x: LINE_X, y: SCREEN_HEIGHT },
            width: LINE_WIDTH,
        }),
{
    Shape::Line {
        from: Point { x: LINE_X, y: 0 },
        to: Point { x: LINE_X, y: SCREEN_HEIGHT },
        width: LINE_WIDTH,
    }
}

} // verus!
