//! The snake: an ordered body of cells, a heading, and deferred growth.

use std::collections::VecDeque;
use vstd::prelude::*;
use crate::grid::{Direction, Position};

verus! {

/// The mathematical model of a snake.
pub struct SnakeView {
    /// The cells of the body, head first, tail last.
    pub body: Seq<Position>,
    /// The current heading.
    pub direction: Direction,
    /// Whether the next move keeps the tail in place.
    pub pending_growth: bool,
}

impl SnakeView {
    /// A snake always has a head.
    pub open spec fn wf(self) -> bool {
        self.body.len() > 0
    }

    /// The first cell of the body.
    pub open spec fn head(self) -> Position {
        self.body[0]
    }

    /// The heading after a request: the requested one, unless none was made
    /// or it exactly reverses the current travel.
    pub open spec fn heading(self, requested: Option<Direction>) -> Direction {
        match requested {
            Some(d) => if d == self.direction.spec_opposite() {
                self.direction
            } else {
                d
            },
            None => self.direction,
        }
    }

    /// The cell the head would enter on the next move.
    pub open spec fn next_head(self, requested: Option<Direction>) -> Position {
        self.head().spec_step(self.heading(requested))
    }

    /// Whether `cell` is one of the body's cells.
    pub open spec fn occupies(self, cell: Position) -> bool {
        self.body.contains(cell)
    }

    /// One move: the new head goes in front; the tail cell leaves unless
    /// growth was pending.
    pub open spec fn move_forward(self, requested: Option<Direction>) -> SnakeView {
        let extended = seq![self.next_head(requested)] + self.body;
        SnakeView {
            body: if self.pending_growth {
                extended
            } else {
                extended.drop_last()
            },
            direction: self.heading(requested),
            pending_growth: false,
        }
    }

    /// The snake with growth pending: its next move keeps the tail.
    pub open spec fn restore_tail(self) -> SnakeView {
        SnakeView { pending_growth: true, ..self }
    }

    /// A new snake of two cells lying along the row `y`, its tail at `x`,
    /// heading right.
    pub open spec fn initial(x: i32, y: i32) -> SnakeView {
        SnakeView {
            body: seq![Position { x: (x + 1) as i32, y }, Position { x, y }],
            direction: Direction::Right,
            pending_growth: false,
        }
    }
}

/// A snake. Its body is a queue of cells: a move pushes the new head at the
/// front and, unless the snake is growing, pops the tail at the back.
pub struct Snake {
    body: VecDeque<Position>,
    direction: Direction,
    pending_growth: bool,
}

impl View for Snake {
    type V = SnakeView;

    closed spec fn view(&self) -> SnakeView {
        SnakeView {
            body: self.body@,
            direction: self.direction,
            pending_growth: self.pending_growth,
        }
    }
}

impl Snake {
    /// A snake of two cells lying along the row `y`, its tail at `x`, heading
    /// right.
    pub fn new(x: i32, y: i32) -> (snake: Snake)
        requires
            x < i32::MAX,
        ensures
            snake@ == SnakeView::initial(x, y),
            snake@.wf(),
    {
        let mut body: VecDeque<Position> = VecDeque::new();
        body.push_back(Position { x: x + 1, y });
        body.push_back(Position { x, y });
        proof {
            assert(body@ =~= SnakeView::initial(x, y).body);
        }
        Snake { body, direction: Direction::Right, pending_growth: false }
    }

    /// The cell of the head.
    pub fn head_position(&self) -> (head: Position)
        requires
            self@.wf(),
        ensures
            head == self@.head(),
    {
        self.body[0]
    }

    /// The current heading.
    pub fn head_direction(&self) -> (direction: Direction)
        ensures
            direction == self@.direction,
    {
        self.direction
    }

    /// The body of an executable snake has a length that `usize` holds.
    pub proof fn body_len_bounded(&self)
        ensures
            self@.body.len() <= usize::MAX,
    {
        assert(self.body.len() == self.body@.len());
    }

    /// The number of cells in the body.
    pub fn len(&self) -> (n: usize)
        ensures
            n == self@.body.len(),
    {
        self.body.len()
    }

    /// The body's cells, head first.
    pub fn body(&self) -> (cells: Vec<Position>)
        ensures
            cells@ == self@.body,
    {
        let mut cells: Vec<Position> = Vec::new();
        let mut i: usize = 0;
        while i < self.body.len()
            invariant
                i <= self.body@.len(),
                cells@ == self.body@.take(i as int),
            decreases self.body@.len() - i,
        {
            cells.push(self.body[i]);
            proof {
                assert(cells@ =~= self.body@.take(i + 1));
            }
            i += 1;
        }
        proof {
            assert(self.body@.take(i as int) =~= self.body@);
        }
        cells
    }

    /// The heading that a move with this request takes.
    fn heading(&self, requested: Option<Direction>) -> (direction: Direction)
        ensures
            direction == self@.heading(requested),
    {
        match requested {
            Some(d) => if d == self.direction.opposite() {
                self.direction
            } else {
                d
            },
            None => self.direction,
        }
    }

    /// The cell the head would enter on a move with this request. A request
    /// to reverse counts as none. The snake is left as it is.
    pub fn next_head(&self, requested: Option<Direction>) -> (next: Position)
        requires
            self@.wf(),
            self@.head().can_step(),
        ensures
            next == self@.next_head(requested),
    {
        let direction = self.heading(requested);
        self.body[0].step(direction)
    }

    /// Whether `cell` is one of the body's cells, the head included.
    pub fn overlap_tail(&self, cell: Position) -> (overlaps: bool)
        ensures
            overlaps == self@.occupies(cell),
    {
        let mut i: usize = 0;
        while i < self.body.len()
            invariant
                i <= self.body@.len(),
                forall|j: int| 0 <= j < i ==> self.body@[j] != cell,
            decreases self.body@.len() - i,
        {
            if self.body[i] == cell {
                return true;
            }
            i += 1;
        }
        false
    }

    /// One move. A request that does not reverse the snake becomes its
    /// heading. The head advances one cell; the tail follows unless growth
    /// was pending, in which case the body is one cell longer.
    pub fn move_forward(&mut self, requested: Option<Direction>)
        requires
            old(self)@.wf(),
            old(self)@.head().can_step(),
        ensures
            final(self)@ == old(self)@.move_forward(requested),
            final(self)@.wf(),
    {
        let next = self.next_head(requested);
        self.direction = self.heading(requested);
        self.body.push_front(next);
        if self.pending_growth {
            self.pending_growth = false;
        } else {
            self.body.pop_back();
        }
        proof {
            assert(self.body@ =~= old(self)@.move_forward(requested).body);
        }
    }

    /// Makes the next move a growing one.
    pub fn restore_tail(&mut self)
        ensures
            final(self)@ == old(self)@.restore_tail(),
    {
        self.pending_growth = true;
    }
}

} // verus!
