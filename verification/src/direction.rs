//! The four directions in which the player can face, and what each means
//! on the grid and on the sprite sheet.

use vstd::prelude::*;

verus! {

/// Number of rows of the sprite sheet: one for each direction.
pub const SHEET_ROWS: i32 = 4;

/// Where the player faces. There is no variant for standing still: a player
/// at rest keeps facing where it last walked.
#[derive(Clone, Copy, Debug, PartialEq, Eq, Structural)]
pub enum Direction {
    Up,
    Down,
    Left,
    Right,
}

impl Direction {
    /// The step of length one in this direction, as `(dx, dy)`. The y axis
    /// points down the screen.
    pub open spec fn unit(self) -> (int, int) {
        match self {
            Direction::Left => (-1, 0),
            Direction::Right => (1, 0),
            Direction::Up => (0, -1),
            Direction::Down => (0, 1),
        }
    }

    /// The row of the sprite sheet that holds the frames of this direction.
    pub open spec fn sheet_row(self) -> int {
        match self {
            Direction::Up => 3,
            Direction::Down => 0,
            Direction::Left => 1,
            Direction::Right => 2,
        }
    }

    /// The step of length one in this direction.
    pub fn unit_vector(self) -> (v: (i32, i32))
        ensures
            (v.0 as int, v.1 as int) == self.unit(),
    {
        match self {
            Direction::Left => (-1, 0),
            Direction::Right => (1, 0),
            Direction::Up => (0, -1),
            Direction::Down => (0, 1),
        }
    }
}

/// The row of the sprite sheet that holds the frames of `direction`.
pub fn direction_spritesheet_row(direction: Direction) -> (row: i32)
    ensures
        row == direction.sheet_row(),
        0 <= row < SHEET_ROWS,
{
    match direction {
        Direction::Up => 3,
        Direction::Down => 0,
        Direction::Left => 1,
        Direction::Right => 2,
    }
}

} // verus!
