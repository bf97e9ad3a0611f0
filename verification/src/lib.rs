//! A grid snake game engine: the snake's movement and growth, collision
//! detection, food placement, scoring, and the running / paused / game-over
//! state machine driven by elapsed time.

pub mod game;
pub mod grid;
pub mod random;
pub mod snake;
pub mod theorems;
