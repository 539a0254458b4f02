pub mod arena;
pub mod draw;
pub mod game;
pub mod snake;

pub use arena::Grid;
pub use draw::draw_positions;
pub use game::{Action, Game, GameEvent, GameState, Key};
pub use snake::{Direction, Part, Position, Snake, Turn};
