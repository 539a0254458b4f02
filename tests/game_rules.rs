use snake_game::arena::{first_free_cell, new_dot};
use snake_game::game::{key_direction, DEFAULT_GRID_SIZE};
use snake_game::{Action, Direction, Game, GameEvent, GameState, Grid, Key, Position, Snake};

fn pos(x: i32, y: i32) -> Position {
    Position { x, y }
}

fn press(game: &mut Game, c: char) -> Action {
    game.handle_event(GameEvent::KeyPress(Key::Char(c)))
}

fn started() -> Game {
    let mut game = Game::new(DEFAULT_GRID_SIZE);
    assert_eq!(press(&mut game, '\n'), Action::ShowStartScreen);
    assert_eq!(game.state(), GameState::Active);
    game
}

#[test]
fn new_game_waits_on_start_screen() {
    let game = Game::new(20);
    assert_eq!(game.state(), GameState::StartScreen);
    assert_eq!(game.dot(), pos(5, 5));
    assert_eq!(game.snake().get_positions(), vec![pos(0, 0)]);
    assert_eq!(game.grid(), Grid { width: 20, height: 20 });
}

#[test]
fn start_screen_ignores_other_events() {
    let mut game = Game::new(20);
    assert_eq!(game.handle_event(GameEvent::Tick), Action::ShowStartScreen);
    assert_eq!(press(&mut game, 'w'), Action::ShowStartScreen);
    assert_eq!(game.handle_event(GameEvent::KeyPress(Key::Up)), Action::ShowStartScreen);
    assert_eq!(game.state(), GameState::StartScreen);
    assert_eq!(game.snake().get_positions(), vec![pos(0, 0)]);
}

#[test]
fn quit_from_either_phase() {
    let mut game = Game::new(20);
    assert_eq!(press(&mut game, 'q'), Action::Quit);
    let mut game = started();
    assert_eq!(press(&mut game, 'q'), Action::Quit);
}

#[test]
fn direction_keys_steer_the_head() {
    let mut game = started();
    assert_eq!(press(&mut game, 'd'), Action::Nothing);
    assert_eq!(game.snake().get_head_direction(), Direction::East);
    assert_eq!(game.handle_event(GameEvent::KeyPress(Key::Up)), Action::Nothing);
    assert_eq!(game.snake().get_head_direction(), Direction::North);
    press(&mut game, 'h');
    assert_eq!(game.snake().get_head_direction(), Direction::West);
    // Reversal is refused.
    game.handle_event(GameEvent::KeyPress(Key::Right));
    assert_eq!(game.snake().get_head_direction(), Direction::West);
    press(&mut game, 'j');
    assert_eq!(game.snake().get_head_direction(), Direction::South);
    assert_eq!(game.handle_event(GameEvent::KeyPress(Key::Other)), Action::Nothing);
    assert_eq!(press(&mut game, 'x'), Action::Nothing);
    assert_eq!(game.snake().get_head_direction(), Direction::South);
}

#[test]
fn key_mapping() {
    for (c, d) in [
        ('w', Direction::North),
        ('k', Direction::North),
        ('s', Direction::South),
        ('j', Direction::South),
        ('a', Direction::West),
        ('h', Direction::West),
        ('d', Direction::East),
        ('l', Direction::East),
    ] {
        assert_eq!(key_direction(Key::Char(c)), Some(d));
    }
    assert_eq!(key_direction(Key::Up), Some(Direction::North));
    assert_eq!(key_direction(Key::Down), Some(Direction::South));
    assert_eq!(key_direction(Key::Left), Some(Direction::West));
    assert_eq!(key_direction(Key::Right), Some(Direction::East));
    assert_eq!(key_direction(Key::Char('q')), None);
    assert_eq!(key_direction(Key::Other), None);
}

#[test]
fn tick_advances_and_renders() {
    let mut game = started();
    assert_eq!(game.handle_event(GameEvent::Tick), Action::Render);
    assert_eq!(game.snake().get_positions(), vec![pos(0, 1)]);
    assert_eq!(game.frame_positions(), vec![pos(0, 1), pos(5, 5)]);
}

#[test]
fn head_on_dot_grows_and_moves_dot() {
    let mut game = started();
    press(&mut game, 'd');
    for _ in 0..5 {
        assert_eq!(game.handle_event(GameEvent::Tick), Action::Render);
    }
    assert_eq!(game.snake().get_head_position(), pos(5, 0));
    press(&mut game, 'w');
    for _ in 0..4 {
        assert_eq!(game.handle_event(GameEvent::Tick), Action::Render);
    }
    assert_eq!(game.snake().get_positions().len(), 1);
    assert_eq!(game.handle_event(GameEvent::Tick), Action::Render);
    let positions = game.snake().get_positions();
    assert_eq!(positions, vec![pos(5, 6), pos(5, 5)]);
    let dot = game.dot();
    assert!(!positions.contains(&dot));
    assert!(dot.x.abs() <= 10 && dot.y.abs() <= 10);
    assert_eq!(game.state(), GameState::Active);
}

#[test]
fn leaving_the_arena_resets() {
    let mut game = started();
    for _ in 0..10 {
        assert_eq!(game.handle_event(GameEvent::Tick), Action::Render);
    }
    assert_eq!(game.snake().get_head_position(), pos(0, 10));
    assert_eq!(game.handle_event(GameEvent::Tick), Action::ShowStartScreen);
    assert_eq!(game.state(), GameState::StartScreen);
    assert_eq!(game.snake().get_positions(), vec![pos(0, 0)]);
    assert_eq!(game.snake().get_head_direction(), Direction::North);
    assert_ne!(game.dot(), pos(0, 0));
}

#[test]
fn leaving_the_arena_to_the_west_resets() {
    let mut game = started();
    press(&mut game, 'a');
    for _ in 0..10 {
        assert_eq!(game.handle_event(GameEvent::Tick), Action::Render);
    }
    assert_eq!(game.snake().get_head_position(), pos(-10, 0));
    assert_eq!(game.handle_event(GameEvent::Tick), Action::ShowStartScreen);
    assert_eq!(game.state(), GameState::StartScreen);
}

#[test]
fn grid_contains_and_radius() {
    let g = Grid::square(20);
    assert_eq!(g.radius(), 10);
    assert!(g.contains(pos(10, -10)));
    assert!(g.contains(pos(0, 0)));
    assert!(!g.contains(pos(11, 0)));
    assert!(!g.contains(pos(0, -11)));
    assert_eq!(Grid::square(5).radius(), 2);
}

#[test]
fn new_dot_avoids_the_snake() {
    let mut snake = Snake::new();
    snake.grow();
    snake.grow();
    let grid = Grid::square(4);
    for _ in 0..200 {
        let dot = new_dot(&snake, &grid).unwrap();
        assert!(!snake.occupies(dot));
        assert!(grid.contains(dot));
    }
}

#[test]
fn new_dot_is_drawn_at_random() {
    let snake = Snake::new();
    let grid = Grid::square(20);
    let first = new_dot(&snake, &grid).unwrap();
    let mut seen_other = false;
    for _ in 0..200 {
        if new_dot(&snake, &grid).unwrap() != first {
            seen_other = true;
        }
    }
    assert!(seen_other);
}

#[test]
fn full_arena_has_no_free_cell() {
    let snake = Snake::new();
    let grid = Grid::square(1);
    assert_eq!(first_free_cell(&snake, &grid), None);
    assert_eq!(new_dot(&snake, &grid), None);
}

#[test]
fn first_free_cell_scans_from_bottom_left() {
    let snake = Snake::starting_at(-1, -1, Direction::North);
    let grid = Grid::square(2);
    assert_eq!(first_free_cell(&snake, &grid), Some(pos(-1, 0)));
    let snake = Snake::new();
    assert_eq!(first_free_cell(&snake, &grid), Some(pos(-1, -1)));
}
