use crate::snake::{positions_of, Position, Snake};
use vstd::prelude::*;

verus! {

/// Smallest x among the positions.
pub open spec fn min_x(ps: Seq<Position>) -> int
    decreases ps.len(),
{
    if ps.len() <= 1 {
        ps[0].x as int
    } else {
        let m = min_x(ps.drop_last());
        if ps.last().x < m {
            ps.last().x as int
        } else {
            m
        }
    }
}

/// Largest x among the positions.
pub open spec fn max_x(ps: Seq<Position>) -> int
    decreases ps.len(),
{
    if ps.len() <= 1 {
        ps[0].x as int
    } else {
        let m = max_x(ps.drop_last());
        if ps.last().x > m {
            ps.last().x as int
        } else {
            m
        }
    }
}

/// Smallest y among the positions.
pub open spec fn min_y(ps: Seq<Position>) -> int
    decreases ps.len(),
{
    if ps.len() <= 1 {
        ps[0].y as int
    } else {
        let m = min_y(ps.drop_last());
        if ps.last().y < m {
            ps.last().y as int
        } else {
            m
        }
    }
}

/// Largest y among the positions.
pub open spec fn max_y(ps: Seq<Position>) -> int
    decreases ps.len(),
{
    if ps.len() <= 1 {
        ps[0].y as int
    } else {
        let m = max_y(ps.drop_last());
        if ps.last().y > m {
            ps.last().y as int
        } else {
            m
        }
    }
}

/// One text row: `width` cells from column `left` on row `y`, `#` where a
/// position lies and a space elsewhere.
pub open spec fn row_text(ps: Seq<Position>, y: int, left: int, width: nat) -> Seq<char> {
    Seq::new(
        width,
        |i: int|
            if ps.contains(Position { x: (left + i) as i32, y: y as i32 }) {
                '#'
            } else {
                ' '
            },
    )
}

/// The `n` rows from row `top` downward, separated by newlines.
pub open spec fn rows_down(ps: Seq<Position>, top: int, n: nat, left: int, width: nat) -> Seq<
    char,
>
    decreases n,
{
    if n == 0 {
        seq![]
    } else if n == 1 {
        row_text(ps, top, left, width)
    } else {
        rows_down(ps, top, (n - 1) as nat, left, width) + seq!['\n'] + row_text(
            ps,
            top - (n - 1),
            left,
            width,
        )
    }
}

/// The picture of the positions: their bounding box, top row first.
pub open spec fn picture(ps: Seq<Position>) -> Seq<char> {
    rows_down(
        ps,
        max_y(ps),
        (max_y(ps) - min_y(ps) + 1) as nat,
        min_x(ps),
        (max_x(ps) - min_x(ps) + 1) as nat,
    )
}

fn contains_position(ps: &Vec<Position>, p: Position) -> (r: bool)
    ensures
        r == ps@.contains(p),
{
    let mut i: usize = 0;
    while i < ps.len()
        invariant
            i <= ps.len(),
            forall|j: int| 0 <= j < i ==> ps@[j] != p,
        decreases ps.len() - i,
    {
        if ps[i] == p {
            return true;
        }
        i = i + 1;
    }
    false
}

/// The bounding box of the positions: (left, right, bottom, top).
fn bounds(ps: &Vec<Position>) -> (r: (i32, i32, i32, i32))
    requires
        ps@.len() >= 1,
    ensures
        r.0 == min_x(ps@),
        r.1 == max_x(ps@),
        r.2 == min_y(ps@),
        r.3 == max_y(ps@),
        r.0 <= r.1,
        r.2 <= r.3,
{
    let mut left = ps[0].x;
    let mut right = ps[0].x;
    let mut bottom = ps[0].y;
    let mut top = ps[0].y;
    let mut i: usize = 1;
    while i < ps.len()
        invariant
            1 <= i <= ps.len(),
            left == min_x(ps@.take(i as int)),
            right == max_x(ps@.take(i as int)),
            bottom == min_y(ps@.take(i as int)),
            top == max_y(ps@.take(i as int)),
            left <= right,
            bottom <= top,
        decreases ps.len() - i,
    {
        let p = ps[i];
        let ghost prev = ps@.take(i as int);
        assert(ps@.take(i + 1).drop_last() =~= prev);
        assert(ps@.take(i + 1).last() == p);
        if p.x < left {
            left = p.x;
        }
        if p.x > right {
            right = p.x;
        }
        if p.y < bottom {
            bottom = p.y;
        }
        if p.y > top {
            top = p.y;
        }
        i = i + 1;
    }
    assert(ps@.take(i as int) =~= ps@);
    (left, right, bottom, top)
}

fn row_line(ps: &Vec<Position>, y: i32, left: i32, right: i32) -> (line: String)
    requires
        left <= right,
    ensures
        line@ == row_text(ps@, y as int, left as int, (right - left + 1) as nat),
{
    let mut line = String::new();
    let mut x: i64 = left as i64;
    while x <= right as i64
        invariant
            left <= x <= right + 1,
            line@ == row_text(ps@, y as int, left as int, (x - left) as nat),
        decreases right + 1 - x,
    {
        let p = Position { x: x as i32, y };
        if contains_position(ps, p) {
            line.append("#");
            proof {
                reveal_strlit("#");
            }
        } else {
            line.append(" ");
            proof {
                reveal_strlit(" ");
            }
        }
        assert(line@ =~= row_text(ps@, y as int, left as int, (x + 1 - left) as nat));
        x = x + 1;
    }
    line
}

/// Draws the positions as text: one line per row of their bounding box, the
/// top row first, with `#` on each position and a space on each other cell.
pub fn draw_positions(positions: Vec<Position>) -> (r: String)
    requires
        positions@.len() >= 1,
    ensures
        r@ == picture(positions@),
{
    let (left, right, bottom, top) = bounds(&positions);
    let ghost width = (right - left + 1) as nat;
    let mut text = String::new();
    let mut y: i64 = top as i64;
    while y >= bottom as i64
        invariant
            bottom <= top,
            left <= right,
            width == (right - left + 1) as nat,
            bottom - 1 <= y <= top,
            text@ == rows_down(positions@, top as int, (top - y) as nat, left as int, width),
        decreases y - bottom + 1,
    {
        let row = row_line(&positions, y as i32, left, right);
        if y < top as i64 {
            text.append("\n");
            proof {
                reveal_strlit("\n");
            }
        }
        text.append(row.as_str());
        assert(text@ =~= rows_down(positions@, top as int, (top - y + 1) as nat, left as int, width));
        y = y - 1;
    }
    text
}

impl Snake {
    /// The snake drawn as text by `draw_positions`.
    pub fn to_text(&self) -> (r: String)
        requires
            self.wf(),
        ensures
            r@ == picture(positions_of(self@)),
    {
        draw_positions(self.get_positions())
    }
}

} // verus!
