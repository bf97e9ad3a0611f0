//! The game: a snake, its food, the board, the score, and the state machine
//! that elapsed time and key presses drive.

use vstd::prelude::*;
use crate::grid::{Direction, Position};
use crate::random::random_in_range;
use crate::snake::{Snake, SnakeView};

verus! {

/// Nanoseconds that must have passed since the last move for the clock to
/// trigger the next one.
pub const MOVING_PERIOD: u64 = 100_000_000;

/// Nanoseconds a finished game is held before a fresh one starts.
pub const RESTART_TIME: u64 = 1_000_000_000;

/// How many cells `add_food` draws at random before it searches the board.
pub const FOOD_ATTEMPTS: u32 = 1024;

#[derive(Clone, Copy, PartialEq, Eq, Structural, Debug)]
pub enum GameState {
    Running,
    Paused,
    GameOver,
}

/// A key press as the game understands it.
#[derive(Clone, Copy, PartialEq, Eq, Structural, Debug)]
pub enum KeyCode {
    Up,
    Down,
    Left,
    Right,
    PauseToggle,
    Other,
}

impl KeyCode {
    /// The heading a key asks for, if it is a directional key.
    pub open spec fn spec_direction(self) -> Option<Direction> {
        match self {
            KeyCode::Up => Some(Direction::Up),
            KeyCode::Down => Some(Direction::Down),
            KeyCode::Left => Some(Direction::Left),
            KeyCode::Right => Some(Direction::Right),
            KeyCode::PauseToggle => None,
            KeyCode::Other => None,
        }
    }

    #[verifier::when_used_as_spec(spec_direction)]
    pub fn direction(self) -> (requested: Option<Direction>)
        ensures
            requested == self.spec_direction(),
    {
        match self {
            KeyCode::Up => Some(Direction::Up),
            KeyCode::Down => Some(Direction::Down),
            KeyCode::Left => Some(Direction::Left),
            KeyCode::Right => Some(Direction::Right),
            KeyCode::PauseToggle => None,
            KeyCode::Other => None,
        }
    }
}

/// The mathematical model of a game.
pub struct GameView {
    pub snake: SnakeView,
    /// The food's cell, if there is food on the board.
    pub food: Option<Position>,
    pub width: i32,
    pub height: i32,
    pub score: nat,
    /// Nanoseconds since the last move, or since the snake died.
    pub waiting_time: u64,
    pub state: GameState,
}

impl GameView {
    /// A cell inside the border that the snake does not cover.
    pub open spec fn free_cell(self, cell: Position) -> bool {
        &&& cell.spec_inside_border(self.width, self.height)
        &&& !self.snake.occupies(cell)
    }

    /// What holds of every game whatever the food: the board has room for a
    /// new snake, the body repeats no cell, the head is inside the border, a
    /// finished game has not outstayed the restart delay, and every point
    /// scored is a cell grown or still owed.
    pub open spec fn wf_without_food(self) -> bool {
        &&& self.width >= 5
        &&& self.height >= 4
        &&& self.snake.wf()
        &&& self.snake.body.no_duplicates()
        &&& self.snake.head().spec_inside_border(self.width, self.height)
        &&& self.state == GameState::GameOver ==> self.waiting_time <= RESTART_TIME
        &&& self.score + 2 <= self.snake.body.len() + if self.snake.pending_growth {
            1int
        } else {
            0int
        }
    }

    /// The invariant of a game at rest: food, if there is any, lies inside
    /// the border and on no cell of the snake.
    pub open spec fn wf(self) -> bool {
        &&& self.wf_without_food()
        &&& match self.food {
            Some(cell) => self.free_cell(cell),
            None => true,
        }
    }

    /// The invariant between a move and the eating check that follows it:
    /// the food may lie under the head, and then no growth is pending; it
    /// lies on no other cell of the snake. Every game at rest satisfies it.
    pub open spec fn wf_after_move(self) -> bool {
        &&& self.wf_without_food()
        &&& match self.food {
            Some(cell) => {
                &&& cell.spec_inside_border(self.width, self.height)
                &&& if cell == self.snake.head() {
                    !self.snake.pending_growth
                } else {
                    !self.snake.occupies(cell)
                }
            },
            None => true,
        }
    }

    /// The game as `new` makes it.
    pub open spec fn initial(width: i32, height: i32) -> GameView {
        GameView {
            snake: SnakeView::initial(2, 2),
            food: Some(Position { x: 6, y: 4 }),
            width,
            height,
            score: 0,
            waiting_time: 0,
            state: GameState::Running,
        }
    }

    /// A full reset on the same board: a new snake, no food, no score.
    pub open spec fn restarted(self) -> GameView {
        GameView {
            snake: SnakeView::initial(2, 2),
            food: None,
            width: self.width,
            height: self.height,
            score: 0,
            waiting_time: 0,
            state: GameState::Running,
        }
    }

    /// Whether the snake lives through a move along the requested heading:
    /// the cell ahead is none of its own and lies inside the border.
    pub open spec fn survives(self, requested: Option<Direction>) -> bool {
        let next = self.snake.next_head(requested);
        &&& !self.snake.occupies(next)
        &&& next.spec_inside_border(self.width, self.height)
    }

    /// Whether the head is on the food.
    pub open spec fn head_on_food(self) -> bool {
        self.food == Some(self.snake.head())
    }

    /// The eating check: a head on the food consumes it, scores a point and
    /// makes the next move a growing one.
    pub open spec fn eat_check(self) -> GameView {
        if self.head_on_food() {
            GameView {
                food: None,
                snake: self.snake.restore_tail(),
                score: self.score + 1,
                ..self
            }
        } else {
            self
        }
    }

    /// One simulation step. Only a running game steps: the snake moves and
    /// eats, or dies where it is.
    pub open spec fn tick(self, requested: Option<Direction>) -> GameView {
        if self.state != GameState::Running {
            self
        } else if self.survives(requested) {
            let moved = GameView { snake: self.snake.move_forward(requested), ..self };
            GameView { waiting_time: 0, ..moved.eat_check() }
        } else {
            GameView { state: GameState::GameOver, waiting_time: 0, ..self }
        }
    }

    /// The effect of a key press.
    pub open spec fn key_pressed(self, key: KeyCode) -> GameView {
        if self.state == GameState::GameOver {
            self
        } else {
            match key.spec_direction() {
                Some(d) => if d == self.snake.direction.spec_opposite() {
                    self
                } else {
                    self.tick(Some(d))
                },
                None => if key == KeyCode::PauseToggle {
                    GameView {
                        state: if self.state == GameState::Paused {
                            GameState::Running
                        } else {
                            GameState::Paused
                        },
                        ..self
                    }
                } else {
                    self
                },
            }
        }
    }

    /// The waiting time after `delta_time` more nanoseconds; it stops at the
    /// largest value the counter holds.
    pub open spec fn clock(self, delta_time: u64) -> u64 {
        if self.waiting_time + delta_time > u64::MAX {
            u64::MAX
        } else {
            (self.waiting_time + delta_time) as u64
        }
    }

    /// Whether some cell inside the border is free of the snake.
    pub open spec fn has_free_cell(self) -> bool {
        exists|cell: Position| #[trigger] self.free_cell(cell)
    }

    /// Whether `food` can be what `add_food` leaves on the board: some free
    /// cell, or nothing where no cell is free.
    pub open spec fn places(self, food: Option<Position>) -> bool {
        match food {
            Some(cell) => self.free_cell(cell),
            None => !self.has_free_cell(),
        }
    }

    /// Whether `food` can be on the board once a frame has looked after the
    /// food: a running game without food gains some wherever a cell is
    /// free; otherwise the food is as it was.
    pub open spec fn regenerates(self, food: Option<Position>) -> bool {
        if self.state == GameState::Running && self.food is None {
            self.places(food)
        } else {
            food == self.food
        }
    }

    /// One frame of `delta_time` nanoseconds, with `food` on the board after
    /// the frame has looked after the food. A finished game only waits for
    /// its restart, a paused game only counts time, a running game steps
    /// once the moving period is exceeded.
    pub open spec fn update(self, delta_time: u64, food: Option<Position>) -> GameView {
        let timed = GameView { waiting_time: self.clock(delta_time), ..self };
        match self.state {
            GameState::GameOver => if timed.waiting_time > RESTART_TIME {
                timed.restarted()
            } else {
                timed
            },
            GameState::Paused => timed,
            GameState::Running => {
                let fed = GameView { food, ..timed };
                if fed.waiting_time > MOVING_PERIOD {
                    fed.tick(None)
                } else {
                    fed
                }
            },
        }
    }

    /// A move that the snake survives leaves the game ready for the eating
    /// check.
    pub proof fn move_keeps_invariant(self, requested: Option<Direction>)
        requires
            self.wf(),
            self.survives(requested),
        ensures
            (GameView { snake: self.snake.move_forward(requested), ..self }).wf_after_move(),
    {
        let next = self.snake.next_head(requested);
        let body = self.snake.body;
        let extended = seq![next] + body;
        let moved = self.snake.move_forward(requested).body;
        assert forall|i: int| 0 <= i < moved.len() implies moved[i] == extended[i] by {}
        assert forall|i: int| 1 <= i < moved.len() implies body.contains(#[trigger] moved[i]) by {
            assert(moved[i] == body[i - 1]);
        }
        assert(moved.no_duplicates()) by {
            assert forall|i: int, j: int|
                0 <= i < moved.len() && 0 <= j < moved.len() && i != j implies moved[i]
                != moved[j] by {
                if i > 0 && j > 0 {
                    assert(moved[i] == body[i - 1] && moved[j] == body[j - 1]);
                } else if i == 0 {
                    assert(body.contains(moved[j]));
                } else {
                    assert(body.contains(moved[i]));
                }
            }
        }
        match self.food {
            Some(cell) => {
                if cell != next && moved.contains(cell) {
                    let i = choose|i: int| 0 <= i < moved.len() && moved[i] == cell;
                    assert(body.contains(moved[i]));
                }
            },
            None => {},
        }
    }

    /// The eating check after a move restores the invariant of a game at
    /// rest.
    pub proof fn eat_check_restores_invariant(self)
        requires
            self.wf_after_move(),
        ensures
            self.eat_check().wf(),
    {
    }

    /// A simulation step keeps the invariant: afterwards the body still
    /// repeats no cell and the food, if it is there, is on none of them.
    pub proof fn tick_keeps_invariant(self, requested: Option<Direction>)
        requires
            self.wf(),
        ensures
            self.tick(requested).wf(),
    {
        if self.state == GameState::Running && self.survives(requested) {
            self.move_keeps_invariant(requested);
            let moved = GameView { snake: self.snake.move_forward(requested), ..self };
            moved.eat_check_restores_invariant();
        }
    }
}

pub struct Game {
    snake: Snake,
    food: Option<Position>,
    width: i32,
    height: i32,
    state: GameState,
    waiting_time: u64,
    score: u64,
}

impl View for Game {
    type V = GameView;

    closed spec fn view(&self) -> GameView {
        GameView {
            snake: self.snake@,
            food: self.food,
            width: self.width,
            height: self.height,
            score: self.score as nat,
            waiting_time: self.waiting_time,
            state: self.state,
        }
    }
}

impl Game {
    /// A running game on a board of the given size, which must hold the
    /// border, the new snake and the first food.
    pub fn new(width: i32, height: i32) -> (game: Game)
        requires
            width >= 8,
            height >= 6,
        ensures
            game@ == GameView::initial(width, height),
            game@.wf(),
    {
        Game {
            snake: Snake::new(2, 2),
            food: Some(Position { x: 6, y: 4 }),
            width,
            height,
            state: GameState::Running,
            waiting_time: 0,
            score: 0,
        }
    }

    /// The snake, for reading.
    pub fn snake(&self) -> (snake: &Snake)
        ensures
            snake@ == self@.snake,
    {
        &self.snake
    }

    /// The food's cell, if there is food on the board.
    pub fn food(&self) -> (food: Option<Position>)
        ensures
            food == self@.food,
    {
        self.food
    }

    /// The board's width in cells, border included.
    pub fn width(&self) -> (width: i32)
        ensures
            width == self@.width,
    {
        self.width
    }

    /// The board's height in cells, border included.
    pub fn height(&self) -> (height: i32)
        ensures
            height == self@.height,
    {
        self.height
    }

    /// The number of times the snake has eaten since the game began.
    pub fn score(&self) -> (score: u64)
        ensures
            score == self@.score,
    {
        self.score
    }

    pub fn state(&self) -> (state: GameState)
        ensures
            state == self@.state,
    {
        self.state
    }

    /// Nanoseconds since the last move, or since the snake died.
    pub fn waiting_time(&self) -> (nanos: u64)
        ensures
            nanos == self@.waiting_time,
    {
        self.waiting_time
    }

    /// The nanoseconds left until a finished game restarts; `None` while the
    /// game is not over.
    pub fn restart_countdown(&self) -> (left: Option<u64>)
        requires
            self@.wf(),
        ensures
            left == if self@.state == GameState::GameOver {
                Some((RESTART_TIME - self@.waiting_time) as u64)
            } else {
                None
            },
    {
        match self.state {
            GameState::GameOver => Some(RESTART_TIME - self.waiting_time),
            _ => None,
        }
    }

    /// A key press. A finished game ignores keys. The pause key toggles
    /// between running and paused. A directional key that does not reverse
    /// the snake makes a running game step at once along that heading.
    pub fn key_pressed(&mut self, key: KeyCode)
        requires
            old(self)@.wf(),
        ensures
            final(self)@ == old(self)@.key_pressed(key),
            final(self)@.wf(),
    {
        match self.state {
            GameState::GameOver => {
                return ;
            },
            _ => {},
        }
        match key.direction() {
            Some(d) => {
                if d == self.snake.head_direction().opposite() {
                    return ;
                }
                self.update_snake(Some(d));
            },
            None => match key {
                KeyCode::PauseToggle => {
                    self.state = match self.state {
                        GameState::Paused => GameState::Running,
                        _ => GameState::Paused,
                    };
                },
                _ => {},
            },
        }
    }

    /// One frame: `delta_time` nanoseconds have passed. A finished game
    /// restarts once it has waited longer than `RESTART_TIME`. A paused game
    /// only counts the time. A running game regains missing food, and steps
    /// along its heading once it has waited longer than `MOVING_PERIOD`.
    pub fn update(&mut self, delta_time: u64)
        requires
            old(self)@.wf(),
        ensures
            final(self)@.wf(),
            exists|food: Option<Position>|
                old(self)@.regenerates(food) && final(self)@ == #[trigger] old(self)@.update(
                    delta_time,
                    food,
                ),
    {
        self.waiting_time = self.waiting_time.saturating_add(delta_time);
        match self.state {
            GameState::GameOver => {
                if self.waiting_time > RESTART_TIME {
                    self.restart();
                }
                proof {
                    assert(old(self)@.regenerates(old(self)@.food));
                    assert(self@ == old(self)@.update(delta_time, old(self)@.food));
                }
                return ;
            },
            GameState::Paused => {
                proof {
                    assert(old(self)@.regenerates(old(self)@.food));
                    assert(self@ == old(self)@.update(delta_time, old(self)@.food));
                }
                return ;
            },
            GameState::Running => {},
        }
        let ghost timed = self@;
        if self.food.is_none() {
            self.add_food();
        }
        let ghost food = self@.food;
        proof {
            if old(self)@.has_free_cell() {
                let cell = choose|cell: Position| old(self)@.free_cell(cell);
                assert(timed.free_cell(cell));
            }
        }
        if self.waiting_time > MOVING_PERIOD {
            self.update_snake(None);
        }
        proof {
            assert(old(self)@.regenerates(food));
            assert(self@ == old(self)@.update(delta_time, food));
        }
    }

    /// The eating check that follows a move: a head on the food consumes
    /// it, scores a point and makes the next move a growing one.
    pub fn chek_eating(&mut self)
        requires
            old(self)@.wf_after_move(),
        ensures
            final(self)@ == old(self)@.eat_check(),
            final(self)@.wf(),
    {
        let head = self.snake.head_position();
        proof {
            old(self)@.eat_check_restores_invariant();
            self.snake.body_len_bounded();
        }
        match self.food {
            Some(cell) => {
                if cell == head {
                    self.food = None;
                    self.snake.restore_tail();
                    self.score += 1;
                }
            },
            None => {},
        }
    }

    /// Whether the snake would live through a step along `dir`: the cell
    /// ahead must be none of its own and lie inside the border.
    pub fn check_if_snake_alive(&mut self, dir: Option<Direction>) -> (alive: bool)
        requires
            old(self)@.wf(),
        ensures
            alive == old(self)@.survives(dir),
            final(self)@ == old(self)@,
    {
        let next = self.snake.next_head(dir);
        if self.snake.overlap_tail(next) {
            return false;
        }
        next.inside_border(self.width, self.height)
    }

    /// Puts the food on `cell` if that is a free cell inside the border, and
    /// says whether it did.
    pub fn place_food(&mut self, cell: Position) -> (placed: bool)
        requires
            old(self)@.wf(),
        ensures
            placed == old(self)@.free_cell(cell),
            final(self)@ == if placed {
                (GameView { food: Some(cell), ..old(self)@ })
            } else {
                old(self)@
            },
            final(self)@.wf(),
    {
        if cell.inside_border(self.width, self.height) && !self.snake.overlap_tail(cell) {
            self.food = Some(cell);
            true
        } else {
            false
        }
    }

    /// The first free cell inside the border, row by row, if there is one.
    fn first_free_cell(&self) -> (found: Option<Position>)
        requires
            self@.wf(),
        ensures
            self@.places(found),
    {
        let mut y: i32 = 1;
        while y < self.height - 1
            invariant
                self@.wf(),
                1 <= y <= self.height - 1,
                forall|cell: Position| cell.y < y ==> !#[trigger] self@.free_cell(cell),
            decreases self.height - y,
        {
            let mut x: i32 = 1;
            while x < self.width - 1
                invariant
                    self@.wf(),
                    1 <= y < self.height - 1,
                    1 <= x <= self.width - 1,
                    forall|cell: Position| cell.y < y ==> !#[trigger] self@.free_cell(cell),
                    forall|cell: Position|
                        cell.y == y && cell.x < x ==> !#[trigger] self@.free_cell(cell),
                decreases self.width - x,
            {
                let cell = Position { x, y };
                if !self.snake.overlap_tail(cell) {
                    return Some(cell);
                }
                x += 1;
            }
            y += 1;
        }
        None
    }

    /// Puts the food on a free cell inside the border. It draws cells at
    /// random until one is free; after `FOOD_ATTEMPTS` draws on covered
    /// cells it takes the first free cell of the board. Only where the snake
    /// covers every cell inside the border is there no food afterwards.
    pub fn add_food(&mut self)
        requires
            old(self)@.wf(),
        ensures
            final(self)@ == (GameView { food: final(self)@.food, ..old(self)@ }),
            old(self)@.places(final(self)@.food),
            final(self)@.wf(),
    {
        let mut attempts: u32 = 0;
        while attempts < FOOD_ATTEMPTS
            invariant
                self@ == old(self)@,
                self@.wf(),
            decreases FOOD_ATTEMPTS - attempts,
        {
            let x: i32 = random_in_range(1, self.width - 1);
            let y: i32 = random_in_range(1, self.height - 1);
            if self.place_food(Position { x, y }) {
                return ;
            }
            attempts += 1;
        }
        match self.first_free_cell() {
            Some(cell) => {
                self.place_food(cell);
            },
            None => {
                proof {
                    if let Some(cell) = self@.food {
                        assert(self@.free_cell(cell));
                    }
                }
            },
        }
    }

    /// One simulation step along the requested heading, for a running game:
    /// the snake moves and eats, or the game is over. Either way the clock
    /// starts again. A paused or finished game does not step.
    pub fn update_snake(&mut self, dir: Option<Direction>)
        requires
            old(self)@.wf(),
        ensures
            final(self)@ == old(self)@.tick(dir),
            final(self)@.wf(),
    {
        match self.state {
            GameState::Running => {},
            _ => {
                return ;
            },
        }
        if self.check_if_snake_alive(dir) {
            self.snake.move_forward(dir);
            proof {
                old(self)@.move_keeps_invariant(dir);
            }
            self.chek_eating();
        } else {
            self.state = GameState::GameOver;
        }
        self.waiting_time = 0;
    }

    /// A full reset on the same board.
    fn restart(&mut self)
        requires
            old(self)@.width >= 5,
            old(self)@.height >= 4,
        ensures
            final(self)@ == old(self)@.restarted(),
            final(self)@.wf(),
    {
        self.snake = Snake::new(2, 2);
        self.food = None;
        self.state = GameState::Running;
        self.waiting_time = 0;
        self.score = 0;
    }
}

} // verus!
