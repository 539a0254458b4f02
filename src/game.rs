use crate::arena::{has_free_cell, new_dot, Grid};
use crate::snake::{
    advanced_parts, grown_parts, head_on_body, occupied, parts_wf, positions_of, turned_parts, Direction, Part, Position, Snake,
};
use vstd::prelude::*;

verus! {

/// The grid size that the game is played on unless told otherwise.
pub const DEFAULT_GRID_SIZE: u8 = 20;

/// Phase of a game session.
#[derive(Clone, Copy, Debug, PartialEq, Eq, Structural)]
pub enum GameState {
    StartScreen,
    Active,
}

/// A key as the game sees it.
#[derive(Clone, Copy, Debug, PartialEq, Eq, Structural)]
pub enum Key {
    Char(char),
    Up,
    Down,
    Left,
    Right,
    Other,
}

/// What the game reacts to: a timer tick or a key press.
#[derive(Clone, Copy, Debug, PartialEq, Eq, Structural)]
pub enum GameEvent {
    Tick,
    KeyPress(Key),
}

/// What the game asks of its surroundings after an event.
#[derive(Clone, Copy, Debug, PartialEq, Eq, Structural)]
pub enum Action {
    /// Clear the screen, restore the cursor and stop.
    Quit,
    /// Show the start screen.
    ShowStartScreen,
    /// Draw the arena with the positions of `Game::frame_positions`.
    Render,
    /// Nothing to do.
    Nothing,
}

pub open spec fn is_quit(k: Key) -> bool {
    k == Key::Char('q')
}

pub open spec fn is_confirm(k: Key) -> bool {
    k == Key::Char('\n')
}

/// The direction a key steers toward: WASD, vi-style hjkl and the arrows.
pub open spec fn spec_key_direction(k: Key) -> Option<Direction> {
    match k {
        Key::Char(c) => if c == 'w' || c == 'k' {
            Some(Direction::North)
        } else if c == 's' || c == 'j' {
            Some(Direction::South)
        } else if c == 'a' || c == 'h' {
            Some(Direction::West)
        } else if c == 'd' || c == 'l' {
            Some(Direction::East)
        } else {
            None
        },
        Key::Up => Some(Direction::North),
        Key::Down => Some(Direction::South),
        Key::Left => Some(Direction::West),
        Key::Right => Some(Direction::East),
        Key::Other => None,
    }
}

pub fn key_direction(k: Key) -> (r: Option<Direction>)
    ensures
        r == spec_key_direction(k),
{
    match k {
        Key::Char(c) => if c == 'w' || c == 'k' {
            Some(Direction::North)
        } else if c == 's' || c == 'j' {
            Some(Direction::South)
        } else if c == 'a' || c == 'h' {
            Some(Direction::West)
        } else if c == 'd' || c == 'l' {
            Some(Direction::East)
        } else {
            None
        },
        Key::Up => Some(Direction::North),
        Key::Down => Some(Direction::South),
        Key::Left => Some(Direction::West),
        Key::Right => Some(Direction::East),
        Key::Other => None,
    }
}

/// The segments of a fresh snake.
pub open spec fn fresh_parts() -> Seq<Part> {
    seq![Part { position: Position { x: 0, y: 0 }, direction: Direction::North }]
}

/// The head has left the arena or run into the body.
pub open spec fn collides(parts: Seq<Part>, grid: Grid) -> bool {
    !grid.spec_contains(parts[0].position) || head_on_body(parts)
}

/// Every segment lies inside the arena or on the ring of cells around it.
pub open spec fn within_reach(parts: Seq<Part>, grid: Grid) -> bool {
    forall|i: int| 0 <= i < parts.len() ==> near(grid, (#[trigger] parts[i]).position)
}

/// The cell lies inside the arena or on the ring of cells around it.
pub open spec fn near(grid: Grid, p: Position) -> bool {
    -grid.half_width() - 1 <= p.x <= grid.half_width() + 1 && -grid.half_height() - 1 <= p.y
        <= grid.half_height() + 1
}

/// After an advance that leaves the head inside the arena, every segment is
/// still within reach: each body segment stands where its predecessor stood.
proof fn lemma_reach_after_advance(parts: Seq<Part>, grid: Grid)
    requires
        parts_wf(parts),
        parts[0].position.can_move(parts[0].direction),
        within_reach(parts, grid),
        grid.spec_contains(advanced_parts(parts)[0].position),
    ensures
        within_reach(advanced_parts(parts), grid),
{
    let moved = advanced_parts(parts);
    assert forall|i: int| 0 <= i < moved.len() implies near(grid, (#[trigger] moved[i]).position) by {
        if i >= 1 {
            assert(parts[i].position.steps_to(parts[i].direction, parts[i - 1].position));
            assert(near(grid, parts[i - 1].position));
            assert(moved[i].position == parts[i - 1].position);
        }
    }
}

/// Growing from a head inside the arena keeps every segment within reach.
proof fn lemma_reach_after_grow(parts: Seq<Part>, grid: Grid)
    requires
        parts.len() >= 1,
        grid.wf(),
        within_reach(parts, grid),
        grid.spec_contains(parts[0].position),
    ensures
        parts[0].position.can_move(parts[0].direction),
        within_reach(grown_parts(parts), grid),
{
    let g = grown_parts(parts);
    assert forall|i: int| 0 <= i < g.len() implies near(grid, (#[trigger] g[i]).position) by {
        if i >= 1 {
            assert(g[i] == parts[i - 1]);
        }
    }
}

/// What a game holds, as plain values.
pub struct GameView {
    pub parts: Seq<Part>,
    pub dot: Position,
    pub state: GameState,
    pub grid: Grid,
}

/// After a dot was asked for: a free cell of the arena when there is one,
/// else the dot as it was.
#[verifier::opaque]
pub open spec fn dot_replaced(after: GameView, old_dot: Position) -> bool {
    if has_free_cell(after.parts, after.grid) {
        after.grid.spec_contains(after.dot) && !occupied(after.parts, after.dot)
    } else {
        after.dot == old_dot
    }
}

/// What a tick does to an active game: the snake advances; a collision
/// resets the game to the start screen with a fresh snake and a new dot;
/// otherwise a head that reached the dot makes the snake grow and the dot
/// move, and the new frame is to be drawn.
pub open spec fn tick_outcome(before: GameView, after: GameView, action: Action) -> bool {
    let moved = advanced_parts(before.parts);
    &&& after.grid == before.grid
    &&& if collides(moved, before.grid) {
        &&& after.state == GameState::StartScreen
        &&& after.parts == fresh_parts()
        &&& dot_replaced(after, before.dot)
        &&& action == Action::ShowStartScreen
    } else if moved[0].position == before.dot {
        &&& after.state == GameState::Active
        &&& after.parts == grown_parts(moved)
        &&& dot_replaced(after, before.dot)
        &&& action == Action::Render
    } else {
        &&& after.state == GameState::Active
        &&& after.parts == moved
        &&& after.dot == before.dot
        &&& action == Action::Render
    }
}

/// What one event does to a game; the phase decides how the event is read.
pub open spec fn event_outcome(
    before: GameView,
    event: GameEvent,
    after: GameView,
    action: Action,
) -> bool {
    match before.state {
        GameState::StartScreen => match event {
            GameEvent::KeyPress(k) if is_quit(k) => action == Action::Quit && after == before,
            GameEvent::KeyPress(k) if is_confirm(k) => action == Action::ShowStartScreen
                && after == GameView { state: GameState::Active, ..before },
            _ => action == Action::ShowStartScreen && after == before,
        },
        GameState::Active => match event {
            GameEvent::KeyPress(k) => if is_quit(k) {
                action == Action::Quit && after == before
            } else {
                action == Action::Nothing && after == GameView {
                    parts: match spec_key_direction(k) {
                        Some(d) => turned_parts(before.parts, d),
                        None => before.parts,
                    },
                    ..before
                }
            },
            GameEvent::Tick => tick_outcome(before, after, action),
        },
    }
}

/// A tick in an active game whose advance puts the head on a body segment
/// resets the game: start screen, fresh snake.
pub proof fn lemma_self_collision_resets(before: GameView, after: GameView, action: Action)
    requires
        before.state == GameState::Active,
        event_outcome(before, GameEvent::Tick, after, action),
        head_on_body(advanced_parts(before.parts)),
    ensures
        after.state == GameState::StartScreen,
        after.parts == fresh_parts(),
        action == Action::ShowStartScreen,
{
}

/// A tick in an active game whose advance puts the head beyond the arena's
/// half-width on either axis resets the game: start screen, fresh snake.
pub proof fn lemma_out_of_bounds_resets(before: GameView, after: GameView, action: Action)
    requires
        before.state == GameState::Active,
        event_outcome(before, GameEvent::Tick, after, action),
        ({
            let head = advanced_parts(before.parts)[0].position;
            head.x > before.grid.half_width() || head.x < -before.grid.half_width() || head.y
                > before.grid.half_height() || head.y < -before.grid.half_height()
        }),
    ensures
        after.state == GameState::StartScreen,
        after.parts == fresh_parts(),
        action == Action::ShowStartScreen,
{
}

/// One game session: the snake, the dot, the phase and the arena.
pub struct Game {
    snake: Snake,
    dot: Position,
    state: GameState,
    grid: Grid,
}

impl View for Game {
    type V = GameView;

    closed spec fn view(&self) -> GameView {
        GameView { parts: self.snake@, dot: self.dot, state: self.state, grid: self.grid }
    }
}

impl Game {
    pub closed spec fn wf(&self) -> bool {
        &&& self.snake.wf()
        &&& self.grid.wf()
        &&& within_reach(self.snake@, self.grid)
    }

    /// A game on the start screen, on a square arena of `grid_size`, with a
    /// fresh snake and the dot at (5, 5).
    pub fn new(grid_size: u8) -> (g: Game)
        ensures
            g.wf(),
            g@.state == GameState::StartScreen,
            g@.parts == fresh_parts(),
            g@.dot == (Position { x: 5, y: 5 }),
            g@.grid == (Grid { width: grid_size as i32, height: grid_size as i32 }),
    {
        Game {
            snake: Snake::new(),
            dot: Position { x: 5, y: 5 },
            state: GameState::StartScreen,
            grid: Grid::square(grid_size),
        }
    }

    pub fn state(&self) -> (r: GameState)
        ensures
            r == self@.state,
    {
        self.state
    }

    pub fn dot(&self) -> (r: Position)
        ensures
            r == self@.dot,
    {
        self.dot
    }

    pub fn grid(&self) -> (r: Grid)
        ensures
            r == self@.grid,
    {
        self.grid
    }

    pub fn snake(&self) -> (r: &Snake)
        ensures
            r@ == self@.parts,
    {
        &self.snake
    }

    /// What to draw for a frame: the snake's cells, head first, then the dot.
    pub fn frame_positions(&self) -> (r: Vec<Position>)
        ensures
            r@ == positions_of(self@.parts).push(self@.dot),
    {
        let mut positions = self.snake.get_positions();
        positions.push(self.dot);
        positions
    }

    fn snake_oob(&self) -> (r: bool)
        requires
            self.snake.wf(),
            self.grid.wf(),
        ensures
            r == !self.grid.spec_contains(self@.parts[0].position),
    {
        let head = self.snake.get_head_position();
        !self.grid.contains(head)
    }

    fn snake_in_itself(&self) -> (r: bool)
        requires
            self.snake.wf(),
        ensures
            r == head_on_body(self@.parts),
    {
        self.snake.head_hits_body()
    }

    fn snake_on_dot(&self) -> (r: bool)
        requires
            self.snake.wf(),
        ensures
            r == (self@.parts[0].position == self@.dot),
    {
        self.snake.get_head_position() == self.dot
    }

    /// Moves the dot to a free cell of the arena, if there is one.
    fn make_new_dot(&mut self)
        requires
            old(self).grid.wf(),
        ensures
            final(self)@ == (GameView { dot: final(self)@.dot, ..old(self)@ }),
            dot_replaced(final(self)@, old(self)@.dot),
    {
        match new_dot(&self.snake, &self.grid) {
            Some(p) => self.dot = p,
            None => {},
        }
        proof {
            reveal(dot_replaced);
        }
    }

    /// Back to the start screen with a fresh snake and a new dot.
    fn reset(&mut self)
        requires
            old(self).grid.wf(),
        ensures
            final(self).wf(),
            final(self)@.state == GameState::StartScreen,
            final(self)@.parts == fresh_parts(),
            final(self)@.grid == old(self)@.grid,
            dot_replaced(final(self)@, old(self)@.dot),
    {
        self.state = GameState::StartScreen;
        self.snake = Snake::new();
        self.make_new_dot();
    }

    /// Grows the snake and moves the dot when the head stands on the dot.
    fn eat_dot(&mut self)
        requires
            old(self).wf(),
            old(self).grid.spec_contains(old(self)@.parts[0].position),
        ensures
            final(self).wf(),
            final(self)@.state == old(self)@.state,
            final(self)@.grid == old(self)@.grid,
            if old(self)@.parts[0].position == old(self)@.dot {
                final(self)@.parts == grown_parts(old(self)@.parts) && dot_replaced(
                    final(self)@,
                    old(self)@.dot,
                )
            } else {
                final(self)@ == old(self)@
            },
    {
        if self.snake_on_dot() {
            proof {
                lemma_reach_after_grow(self@.parts, self.grid);
            }
            self.snake.grow();
            self.make_new_dot();
        }
    }

    fn tick(&mut self) -> (action: Action)
        requires
            old(self).wf(),
            old(self)@.state == GameState::Active,
        ensures
            final(self).wf(),
            tick_outcome(old(self)@, final(self)@, action),
    {
        let ghost before = self@;
        let ghost moved = advanced_parts(before.parts);
        assert(self.snake.head_can_move());
        self.snake.advance();
        let oob = self.snake_oob();
        let hit = self.snake_in_itself();
        if oob || hit {
            self.reset();
            assert(collides(moved, before.grid));
            Action::ShowStartScreen
        } else {
            proof {
                lemma_reach_after_advance(before.parts, before.grid);
            }
            assert(self.wf());
            self.eat_dot();
            Action::Render
        }
    }

    /// Reacts to one event and says what the surroundings should do next.
    pub fn handle_event(&mut self, event: GameEvent) -> (action: Action)
        requires
            old(self).wf(),
        ensures
            final(self).wf(),
            event_outcome(old(self)@, event, final(self)@, action),
    {
        match self.state {
            GameState::StartScreen => match event {
                GameEvent::KeyPress(k) => {
                    if k == Key::Char('q') {
                        Action::Quit
                    } else if k == Key::Char('\n') {
                        self.state = GameState::Active;
                        Action::ShowStartScreen
                    } else {
                        Action::ShowStartScreen
                    }
                },
                GameEvent::Tick => Action::ShowStartScreen,
            },
            GameState::Active => match event {
                GameEvent::KeyPress(k) => {
                    if k == Key::Char('q') {
                        Action::Quit
                    } else {
                        match key_direction(k) {
                            Some(d) => self.snake.change_head_direction(d),
                            None => {},
                        }
                        Action::Nothing
                    }
                },
                GameEvent::Tick => self.tick(),
            },
        }
    }
}

} // verus!
