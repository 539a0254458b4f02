use crate::snake::{occupied, Part, Position, Snake};
use rand::Rng;
use vstd::prelude::*;

verus! {

/// How many random cells are tried before the free cells are searched in order.
pub const RANDOM_TRIES: u32 = 64;

/// The arena: a rectangle of cells centred on the origin.
#[derive(Clone, Copy, Debug, PartialEq, Eq, Structural)]
pub struct Grid {
    pub width: i32,
    pub height: i32,
}

impl Grid {
    pub open spec fn wf(&self) -> bool {
        0 <= self.width <= 255 && 0 <= self.height <= 255
    }

    /// Largest distance from the origin along x that stays inside.
    pub open spec fn half_width(&self) -> int {
        self.width / 2
    }

    /// Largest distance from the origin along y that stays inside.
    pub open spec fn half_height(&self) -> int {
        self.height / 2
    }

    pub open spec fn spec_contains(&self, p: Position) -> bool {
        -self.half_width() <= p.x <= self.half_width() && -self.half_height() <= p.y
            <= self.half_height()
    }

    /// The square arena of a configured grid size, of half-width `size / 2`.
    pub fn square(size: u8) -> (g: Grid)
        ensures
            g.wf(),
            g.width == size as i32,
            g.height == size as i32,
    {
        Grid { width: size as i32, height: size as i32 }
    }

    pub fn radius(&self) -> (r: i32)
        requires
            self.wf(),
        ensures
            r == self.half_width(),
    {
        self.width / 2
    }

    /// Whether `p` lies inside the arena.
    pub fn contains(&self, p: Position) -> (r: bool)
        requires
            self.wf(),
        ensures
            r == self.spec_contains(p),
    {
        let hw = self.width / 2;
        let hh = self.height / 2;
        -hw <= p.x && p.x <= hw && -hh <= p.y && p.y <= hh
    }
}

/// Some cell of the arena is not covered by the snake.
pub open spec fn has_free_cell(parts: Seq<Part>, grid: Grid) -> bool {
    exists|p: Position| grid.spec_contains(p) && !occupied(parts, p)
}

/// Relies on rand::thread_rng and Rng::gen_range: a value drawn from
/// `low..high`, which panics only when `low >= high`.
#[verifier::external_body]
fn random_in(low: i32, high: i32) -> (r: i32)
    requires
        low < high,
    ensures
        low <= r < high,
{
    rand::thread_rng().gen_range(low, high)
}

/// The first free cell of the arena, scanning columns from the left and each
/// column from the bottom; `None` exactly when the snake covers the arena.
pub fn first_free_cell(snake: &Snake, grid: &Grid) -> (r: Option<Position>)
    requires
        grid.wf(),
    ensures
        r.is_some() == has_free_cell(snake@, *grid),
        r matches Some(p) ==> grid.spec_contains(p) && !occupied(snake@, p),
        r matches Some(p) ==> forall|q: Position| #[trigger]
            grid.spec_contains(q) && (q.x < p.x || (q.x == p.x && q.y < p.y)) ==> occupied(
                snake@,
                q,
            ),
{
    let hw = grid.width / 2;
    let hh = grid.height / 2;
    let mut x: i32 = -hw;
    while x <= hw
        invariant
            grid.wf(),
            hw == grid.half_width(),
            hh == grid.half_height(),
            -hw <= x <= hw + 1,
            forall|p: Position| #[trigger]
                grid.spec_contains(p) && p.x < x ==> occupied(snake@, p),
        decreases hw + 1 - x,
    {
        let mut y: i32 = -hh;
        while y <= hh
            invariant
                grid.wf(),
                hw == grid.half_width(),
                hh == grid.half_height(),
                -hw <= x <= hw,
                -hh <= y <= hh + 1,
                forall|p: Position| #[trigger]
                    grid.spec_contains(p) && (p.x < x || (p.x == x && p.y < y)) ==> occupied(
                        snake@,
                        p,
                    ),
            decreases hh + 1 - y,
        {
            let p = Position { x, y };
            if !snake.occupies(p) {
                assert(grid.spec_contains(p) && !occupied(snake@, p));
                return Some(p);
            }
            y = y + 1;
        }
        x = x + 1;
    }
    None
}

/// A new dot: a free cell of the arena, drawn at random, or found by a scan
/// when the random draws keep landing on the snake; `None` exactly when the
/// snake covers the arena.
pub fn new_dot(snake: &Snake, grid: &Grid) -> (r: Option<Position>)
    requires
        grid.wf(),
    ensures
        r.is_some() == has_free_cell(snake@, *grid),
        r matches Some(p) ==> grid.spec_contains(p) && !occupied(snake@, p),
{
    let hw = grid.width / 2;
    let hh = grid.height / 2;
    let mut tries: u32 = 0;
    while tries < RANDOM_TRIES
        invariant
            grid.wf(),
            hw == grid.half_width(),
            hh == grid.half_height(),
        decreases RANDOM_TRIES - tries,
    {
        let p = Position { x: random_in(-hw, hw + 1), y: random_in(-hh, hh + 1) };
        if !snake.occupies(p) {
            assert(grid.spec_contains(p) && !occupied(snake@, p));
            return Some(p);
        }
        tries = tries + 1;
    }
    first_free_cell(snake, grid)
}

} // verus!
