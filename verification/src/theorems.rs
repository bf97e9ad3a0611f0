//! What holds of every game, proved over the model of `game`.

use vstd::prelude::*;
use crate::game::{GameState, GameView, KeyCode, RESTART_TIME};
use crate::grid::{Direction, Position};

verus! {

/// Something that happens to a game: a key press, or a frame of elapsed time
/// together with the food that is on the board once the frame has looked
/// after it.
pub enum Event {
    Key(KeyCode),
    Frame { delta_time: u64, food: Option<Position> },
}

/// Whether `event` can happen to `game`: any key can be pressed, and a frame
/// leaves food only where `regenerates` allows it.
pub open spec fn admits(game: GameView, event: Event) -> bool {
    match event {
        Event::Key(_) => true,
        Event::Frame { delta_time, food } => game.regenerates(food),
    }
}

/// The game after `event`.
pub open spec fn apply(game: GameView, event: Event) -> GameView {
    match event {
        Event::Key(key) => game.key_pressed(key),
        Event::Frame { delta_time, food } => game.update(delta_time, food),
    }
}

/// The game after all of `events`, in order.
pub open spec fn play(start: GameView, events: Seq<Event>) -> GameView
    decreases events.len(),
{
    if events.len() == 0 {
        start
    } else {
        apply(play(start, events.drop_last()), events.last())
    }
}

/// Whether each of `events` can happen to the game that the events before it
/// lead to.
pub open spec fn admissible(start: GameView, events: Seq<Event>) -> bool
    decreases events.len(),
{
    if events.len() == 0 {
        true
    } else {
        &&& admissible(start, events.drop_last())
        &&& admits(play(start, events.drop_last()), events.last())
    }
}

/// The game after frames of the given lengths, each of which finds the food
/// as the frame before left it. This is how frames follow one another while
/// a game is paused or over, where no frame places food.
pub open spec fn elapse(start: GameView, frames: Seq<u64>) -> GameView
    decreases frames.len(),
{
    if frames.len() == 0 {
        start
    } else {
        let before = elapse(start, frames.drop_last());
        before.update(frames.last(), before.food)
    }
}

/// The sum of the frame lengths.
pub open spec fn total(frames: Seq<u64>) -> int
    decreases frames.len(),
{
    if frames.len() == 0 {
        0
    } else {
        total(frames.drop_last()) + frames.last()
    }
}

/// A key press keeps the invariant.
pub proof fn key_press_keeps_invariant(game: GameView, key: KeyCode)
    requires
        game.wf(),
    ensures
        game.key_pressed(key).wf(),
{
    match key.spec_direction() {
        Some(d) => game.tick_keeps_invariant(Some(d)),
        None => {},
    }
}

/// A frame keeps the invariant, whatever food it left.
pub proof fn frame_keeps_invariant(game: GameView, delta_time: u64, food: Option<Position>)
    requires
        game.wf(),
        game.regenerates(food),
    ensures
        game.update(delta_time, food).wf(),
{
    let timed = GameView { waiting_time: game.clock(delta_time), ..game };
    if game.state == GameState::Running {
        let fed = GameView { food, ..timed };
        assert(fed.wf());
        fed.tick_keeps_invariant(None);
    }
}

/// A new game satisfies the invariant on every board that holds it.
pub proof fn new_game_is_well_formed(width: i32, height: i32)
    requires
        width >= 8,
        height >= 6,
    ensures
        GameView::initial(width, height).wf(),
{
}

/// In every game that key presses and frames lead to from a well-formed
/// one, whatever its state, the snake's body holds no cell twice, and food,
/// where it exists, is on no cell of the body.
pub proof fn body_never_repeats_and_food_stays_clear(start: GameView, events: Seq<Event>)
    requires
        start.wf(),
        admissible(start, events),
    ensures
        play(start, events).wf(),
        play(start, events).snake.body.no_duplicates(),
        play(start, events).food matches Some(cell) ==> !play(start, events).snake.body.contains(
            cell,
        ),
    decreases events.len(),
{
    if events.len() > 0 {
        body_never_repeats_and_food_stays_clear(start, events.drop_last());
        let before = play(start, events.drop_last());
        match events.last() {
            Event::Key(key) => key_press_keeps_invariant(before, key),
            Event::Frame { delta_time, food } => frame_keeps_invariant(before, delta_time, food),
        }
    }
}

/// A step in which the snake reaches the food scores a point and makes the
/// step after it, if the snake survives that one, lengthen the body by one
/// cell. After any other step the next one leaves the length as it is.
pub proof fn growth_follows_eating(
    game: GameView,
    first: Option<Direction>,
    second: Option<Direction>,
)
    requires
        game.wf(),
        game.state == GameState::Running,
    ensures
        ({
            let eating = game.survives(first) && game.food == Some(game.snake.next_head(first));
            let after_first = game.tick(first);
            let after_second = after_first.tick(second);
            &&& game.survives(first) ==> after_first.snake.pending_growth == eating
            &&& after_first.score == game.score + if eating {
                1int
            } else {
                0int
            }
            &&& after_first.food == if eating {
                None
            } else {
                game.food
            }
            &&& after_second.snake.body.len() == after_first.snake.body.len() + if eating
                && after_first.survives(second) {
                1int
            } else {
                0int
            }
        }),
{
    game.tick_keeps_invariant(first);
    if game.survives(first) {
        let moved = game.snake.move_forward(first);
        assert(moved.body[0] == game.snake.next_head(first));
    }
    let after_first = game.tick(first);
    if after_first.state == GameState::Running && after_first.survives(second) {
        let extended = seq![after_first.snake.next_head(second)] + after_first.snake.body;
        assert(extended.len() == after_first.snake.body.len() + 1);
    }
}

/// A request to reverse is dropped: the key changes nothing, and a step
/// with such a request is the step without one.
pub proof fn reversal_is_rejected(game: GameView, key: KeyCode)
    requires
        key.spec_direction() == Some(game.snake.direction.spec_opposite()),
    ensures
        game.key_pressed(key) == game,
        game.snake.heading(key.spec_direction()) == game.snake.direction,
        game.snake.move_forward(key.spec_direction()) == game.snake.move_forward(None),
        game.tick(key.spec_direction()) == game.tick(None),
{
}

/// A running snake whose next cell is on the border dies on that step,
/// without moving.
pub proof fn border_is_fatal(game: GameView, requested: Option<Direction>)
    requires
        game.state == GameState::Running,
        ({
            let next = game.snake.next_head(requested);
            next.x == 0 || next.x == game.width - 1 || next.y == 0 || next.y == game.height - 1
        }),
    ensures
        game.tick(requested).state == GameState::GameOver,
        game.tick(requested).waiting_time == 0,
        game.tick(requested).snake == game.snake,
{
}

/// A running snake whose next cell is one of its own dies on that step,
/// wherever on the board that cell lies.
pub proof fn self_collision_is_fatal(game: GameView, requested: Option<Direction>)
    requires
        game.state == GameState::Running,
        game.snake.body.contains(game.snake.next_head(requested)),
    ensures
        game.tick(requested).state == GameState::GameOver,
        game.tick(requested).waiting_time == 0,
        game.tick(requested).snake == game.snake,
{
}

/// A finished game only counts time while the frames add up to no more than
/// the restart delay.
pub proof fn finished_game_waits(game: GameView, frames: Seq<u64>)
    requires
        game.state == GameState::GameOver,
        game.waiting_time + total(frames) <= RESTART_TIME,
    ensures
        elapse(game, frames).waiting_time == game.waiting_time + total(frames),
        elapse(game, frames) == (GameView {
            waiting_time: elapse(game, frames).waiting_time,
            ..game
        }),
    decreases frames.len(),
{
    if frames.len() > 0 {
        finished_game_waits(game, frames.drop_last());
    }
}

/// The frame that takes a finished game past the restart delay resets it:
/// a new snake, no food, no score, the clock at zero, running.
pub proof fn finished_game_restarts(game: GameView, delta_time: u64, food: Option<Position>)
    requires
        game.state == GameState::GameOver,
        game.waiting_time + delta_time > RESTART_TIME,
    ensures
        game.update(delta_time, food) == game.restarted(),
{
}

/// From the moment of death, the game restarts exactly in the frame with
/// which the elapsed time first exceeds the restart delay.
pub proof fn restart_comes_just_after_delay(game: GameView, frames: Seq<u64>, last: u64)
    requires
        game.state == GameState::GameOver,
        game.waiting_time == 0,
        total(frames) <= RESTART_TIME,
    ensures
        elapse(game, frames).state == GameState::GameOver,
        total(frames) + last > RESTART_TIME ==> elapse(game, frames.push(last))
            == game.restarted(),
        total(frames) + last <= RESTART_TIME ==> elapse(game, frames.push(last)) == (GameView {
            waiting_time: elapse(game, frames.push(last)).waiting_time,
            ..game
        }) && elapse(game, frames.push(last)).waiting_time == total(frames) + last,
{
    finished_game_waits(game, frames);
    assert(frames.push(last).drop_last() =~= frames);
}

/// While a game is paused, frames of any length change neither the snake
/// nor the food nor the score, and the game stays paused.
pub proof fn paused_frames_change_nothing(game: GameView, frames: Seq<u64>)
    requires
        game.state == GameState::Paused,
    ensures
        elapse(game, frames).snake == game.snake,
        elapse(game, frames).food == game.food,
        elapse(game, frames).score == game.score,
        elapse(game, frames).state == GameState::Paused,
    decreases frames.len(),
{
    if frames.len() > 0 {
        paused_frames_change_nothing(game, frames.drop_last());
    }
}

/// One frame of a paused game only moves the clock, whatever food is
/// offered.
pub proof fn paused_frame_only_counts_time(
    game: GameView,
    delta_time: u64,
    food: Option<Position>,
)
    requires
        game.state == GameState::Paused,
    ensures
        game.update(delta_time, food) == (GameView {
            waiting_time: game.clock(delta_time),
            ..game
        }),
{
}

} // verus!
