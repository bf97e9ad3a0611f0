use snake_game::grid::{Direction, Position};
use snake_game::snake::Snake;

fn at(x: i32, y: i32) -> Position {
    Position { x, y }
}

#[test]
fn opposite_pairs_up_the_headings() {
    assert_eq!(Direction::Up.opposite(), Direction::Down);
    assert_eq!(Direction::Down.opposite(), Direction::Up);
    assert_eq!(Direction::Left.opposite(), Direction::Right);
    assert_eq!(Direction::Right.opposite(), Direction::Left);
}

#[test]
fn opposite_twice_is_identity() {
    for d in [Direction::Up, Direction::Down, Direction::Left, Direction::Right] {
        assert_eq!(d.opposite().opposite(), d);
        assert_ne!(d.opposite(), d);
    }
}

#[test]
fn step_moves_one_cell() {
    let p = at(5, 4);
    assert_eq!(p.step(Direction::Up), at(5, 3));
    assert_eq!(p.step(Direction::Down), at(5, 5));
    assert_eq!(p.step(Direction::Left), at(4, 4));
    assert_eq!(p.step(Direction::Right), at(6, 4));
}

#[test]
fn inside_border_excludes_the_walls() {
    assert!(at(1, 1).inside_border(30, 30));
    assert!(at(28, 28).inside_border(30, 30));
    assert!(!at(0, 5).inside_border(30, 30));
    assert!(!at(29, 5).inside_border(30, 30));
    assert!(!at(5, 0).inside_border(30, 30));
    assert!(!at(5, 29).inside_border(30, 30));
    assert!(!at(-1, 5).inside_border(30, 30));
    assert!(!at(30, 5).inside_border(30, 30));
    assert!(at(5, 10).inside_border(30, 12));
    assert!(!at(5, 11).inside_border(30, 12));
}

#[test]
fn new_snake_has_two_cells_heading_right() {
    let snake = Snake::new(2, 2);
    assert_eq!(snake.body(), vec![at(3, 2), at(2, 2)]);
    assert_eq!(snake.len(), 2);
    assert_eq!(snake.head_position(), at(3, 2));
    assert_eq!(snake.head_direction(), Direction::Right);
}

#[test]
fn next_head_follows_request_or_heading() {
    let snake = Snake::new(2, 2);
    assert_eq!(snake.next_head(None), at(4, 2));
    assert_eq!(snake.next_head(Some(Direction::Right)), at(4, 2));
    assert_eq!(snake.next_head(Some(Direction::Up)), at(3, 1));
    assert_eq!(snake.next_head(Some(Direction::Down)), at(3, 3));
    assert_eq!(snake.body(), vec![at(3, 2), at(2, 2)]);
}

#[test]
fn next_head_ignores_a_reversal() {
    let snake = Snake::new(2, 2);
    assert_eq!(snake.next_head(Some(Direction::Left)), at(4, 2));
}

#[test]
fn overlap_tail_finds_every_body_cell() {
    let snake = Snake::new(2, 2);
    assert!(snake.overlap_tail(at(3, 2)));
    assert!(snake.overlap_tail(at(2, 2)));
    assert!(!snake.overlap_tail(at(4, 2)));
    assert!(!snake.overlap_tail(at(2, 3)));
}

#[test]
fn move_forward_slides_the_body() {
    let mut snake = Snake::new(2, 2);
    snake.move_forward(None);
    assert_eq!(snake.body(), vec![at(4, 2), at(3, 2)]);
    assert_eq!(snake.head_direction(), Direction::Right);
    snake.move_forward(Some(Direction::Down));
    assert_eq!(snake.body(), vec![at(4, 3), at(4, 2)]);
    assert_eq!(snake.head_direction(), Direction::Down);
}

#[test]
fn move_forward_rejects_a_reversal() {
    let mut snake = Snake::new(2, 2);
    snake.move_forward(Some(Direction::Left));
    assert_eq!(snake.body(), vec![at(4, 2), at(3, 2)]);
    assert_eq!(snake.head_direction(), Direction::Right);
}

#[test]
fn restore_tail_grows_exactly_once() {
    let mut snake = Snake::new(2, 2);
    snake.restore_tail();
    assert_eq!(snake.len(), 2);
    snake.move_forward(None);
    assert_eq!(snake.body(), vec![at(4, 2), at(3, 2), at(2, 2)]);
    snake.move_forward(None);
    assert_eq!(snake.body(), vec![at(5, 2), at(4, 2), at(3, 2)]);
}
