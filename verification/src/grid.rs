//! Board coordinates and the four headings.

use vstd::prelude::*;

verus! {

/// One of the four headings a snake can travel along.
#[derive(Clone, Copy, PartialEq, Eq, Structural, Debug)]
pub enum Direction {
    Up,
    Down,
    Left,
    Right,
}

impl Direction {
    /// The heading that exactly reverses this one.
    pub open spec fn spec_opposite(self) -> Direction {
        match self {
            Direction::Up => Direction::Down,
            Direction::Down => Direction::Up,
            Direction::Left => Direction::Right,
            Direction::Right => Direction::Left,
        }
    }

    /// The heading that exactly reverses this one.
    #[verifier::when_used_as_spec(spec_opposite)]
    pub fn opposite(self) -> (reversed: Direction)
        ensures
            reversed == self.spec_opposite(),
    {
        match self {
            Direction::Up => Direction::Down,
            Direction::Down => Direction::Up,
            Direction::Left => Direction::Right,
            Direction::Right => Direction::Left,
        }
    }

    /// Reversing a heading twice gives the heading back, and a heading is
    /// never its own reverse.
    pub proof fn opposite_is_involution(self)
        ensures
            self.spec_opposite().spec_opposite() == self,
            self.spec_opposite() != self,
    {
    }
}

/// A cell of the board, in grid units. The y axis grows downwards.
#[derive(Clone, Copy, PartialEq, Eq, Structural, Debug)]
pub struct Position {
    pub x: i32,
    pub y: i32,
}

impl Position {
    /// Both coordinates have a neighbour on either side within `i32`.
    pub open spec fn can_step(self) -> bool {
        &&& i32::MIN < self.x < i32::MAX
        &&& i32::MIN < self.y < i32::MAX
    }

    /// The neighbouring cell one step along `direction`.
    pub open spec fn spec_step(self, direction: Direction) -> Position {
        match direction {
            Direction::Up => Position { x: self.x, y: (self.y - 1) as i32 },
            Direction::Down => Position { x: self.x, y: (self.y + 1) as i32 },
            Direction::Left => Position { x: (self.x - 1) as i32, y: self.y },
            Direction::Right => Position { x: (self.x + 1) as i32, y: self.y },
        }
    }

    /// The neighbouring cell one step along `direction`.
    #[verifier::when_used_as_spec(spec_step)]
    pub fn step(self, direction: Direction) -> (next: Position)
        requires
            self.can_step(),
        ensures
            next == self.spec_step(direction),
    {
        match direction {
            Direction::Up => Position { x: self.x, y: self.y - 1 },
            Direction::Down => Position { x: self.x, y: self.y + 1 },
            Direction::Left => Position { x: self.x - 1, y: self.y },
            Direction::Right => Position { x: self.x + 1, y: self.y },
        }
    }

    /// The cell lies strictly inside the one-cell border of a board of the
    /// given size.
    pub open spec fn spec_inside_border(self, width: i32, height: i32) -> bool {
        &&& 0 < self.x < width - 1
        &&& 0 < self.y < height - 1
    }

    /// Whether the cell lies strictly inside the border of a board of the
    /// given size.
    #[verifier::when_used_as_spec(spec_inside_border)]
    pub fn inside_border(self, width: i32, height: i32) -> (inside: bool)
        requires
            width > i32::MIN,
            height > i32::MIN,
        ensures
            inside == self.spec_inside_border(width, height),
    {
        self.x > 0 && self.y > 0 && self.x < width - 1 && self.y < height - 1
    }
}

} // verus!
