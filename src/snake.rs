use vstd::prelude::*;

verus! {

/// One of the four grid directions.
#[derive(Clone, Copy, Debug, PartialEq, Eq, Structural)]
pub enum Direction {
    North,
    East,
    South,
    West,
}

/// A quarter turn, relative to the current direction.
#[derive(Clone, Copy, Debug, PartialEq, Eq, Structural)]
pub enum Turn {
    Left,
    Right,
}

impl Direction {
    /// Horizontal component of one step in this direction.
    pub open spec fn dx(self) -> int {
        match self {
            Direction::East => 1,
            Direction::West => -1,
            _ => 0,
        }
    }

    /// Vertical component of one step in this direction (North is up).
    pub open spec fn dy(self) -> int {
        match self {
            Direction::North => 1,
            Direction::South => -1,
            _ => 0,
        }
    }

    pub open spec fn spec_opposite(self) -> Direction {
        match self {
            Direction::North => Direction::South,
            Direction::South => Direction::North,
            Direction::East => Direction::West,
            Direction::West => Direction::East,
        }
    }

    pub open spec fn spec_turned(self, t: Turn) -> Direction {
        match t {
            Turn::Left => match self {
                Direction::North => Direction::West,
                Direction::East => Direction::North,
                Direction::South => Direction::East,
                Direction::West => Direction::South,
            },
            Turn::Right => match self {
                Direction::North => Direction::East,
                Direction::East => Direction::South,
                Direction::South => Direction::West,
                Direction::West => Direction::North,
            },
        }
    }

    pub fn opposite(&self) -> (r: Direction)
        ensures
            r == self.spec_opposite(),
    {
        match self {
            Direction::North => Direction::South,
            Direction::South => Direction::North,
            Direction::East => Direction::West,
            Direction::West => Direction::East,
        }
    }

    pub fn turned(&self, t: Turn) -> (r: Direction)
        ensures
            r == self.spec_turned(t),
    {
        match t {
            Turn::Left => match self {
                Direction::North => Direction::West,
                Direction::East => Direction::North,
                Direction::South => Direction::East,
                Direction::West => Direction::South,
            },
            Turn::Right => match self {
                Direction::North => Direction::East,
                Direction::East => Direction::South,
                Direction::South => Direction::West,
                Direction::West => Direction::North,
            },
        }
    }
}

/// A cell of the unbounded integer plane.
#[derive(Clone, Copy, Debug, PartialEq, Eq, Structural)]
pub struct Position {
    pub x: i32,
    pub y: i32,
}

impl Position {
    /// One step from `self` in direction `d` stays within `i32`.
    pub open spec fn can_move(self, d: Direction) -> bool {
        i32::MIN <= self.x + d.dx() <= i32::MAX && i32::MIN <= self.y + d.dy() <= i32::MAX
    }

    /// The cell one step from `self` in direction `d`.
    pub open spec fn moved(self, d: Direction) -> Position {
        Position { x: (self.x + d.dx()) as i32, y: (self.y + d.dy()) as i32 }
    }

    /// `q` lies exactly one step from `self` in direction `d`.
    pub open spec fn steps_to(self, d: Direction, q: Position) -> bool {
        self.x + d.dx() == q.x && self.y + d.dy() == q.y
    }

    pub fn advanced(&self, direction: Direction) -> (r: Position)
        requires
            self.can_move(direction),
        ensures
            r == self.moved(direction),
            self.steps_to(direction, r),
    {
        match direction {
            Direction::North => Position { x: self.x, y: self.y + 1 },
            Direction::East => Position { x: self.x + 1, y: self.y },
            Direction::South => Position { x: self.x, y: self.y - 1 },
            Direction::West => Position { x: self.x - 1, y: self.y },
        }
    }
}

/// One body segment: where it is and where it moves on the next advance.
#[derive(Clone, Copy, Debug, PartialEq, Eq, Structural)]
pub struct Part {
    pub position: Position,
    pub direction: Direction,
}

/// Each segment behind the head reaches the segment ahead of it with one step
/// along its own direction.
pub open spec fn connected(parts: Seq<Part>) -> bool {
    forall|i: int|
        1 <= i < parts.len() ==> #[trigger] parts[i].position.steps_to(
            parts[i].direction,
            parts[i - 1].position,
        )
}

/// A snake has at least one segment and its segments form a chain.
pub open spec fn parts_wf(parts: Seq<Part>) -> bool {
    parts.len() >= 1 && connected(parts)
}

/// The cells occupied by the segments, head first.
pub open spec fn positions_of(parts: Seq<Part>) -> Seq<Position> {
    parts.map_values(|p: Part| p.position)
}

/// Some segment stands on `p`.
pub open spec fn occupied(parts: Seq<Part>, p: Position) -> bool {
    exists|i: int| 0 <= i < parts.len() && (#[trigger] parts[i]).position == p
}

/// Some segment other than the head stands on the head's cell.
pub open spec fn head_on_body(parts: Seq<Part>) -> bool {
    exists|i: int| 1 <= i < parts.len() && (#[trigger] parts[i]).position == parts[0].position
}

/// The segments after one advance: each moves one step along its own
/// direction and takes over the direction that the segment ahead held.
pub open spec fn advanced_parts(parts: Seq<Part>) -> Seq<Part> {
    Seq::new(
        parts.len(),
        |i: int|
            Part {
                position: parts[i].position.moved(parts[i].direction),
                direction: if i == 0 {
                    parts[0].direction
                } else {
                    parts[i - 1].direction
                },
            },
    )
}

/// The segments after growing: a new head one step ahead of the old one.
pub open spec fn grown_parts(parts: Seq<Part>) -> Seq<Part> {
    seq![Part { position: parts[0].position.moved(parts[0].direction), direction: parts[0].direction }]
        + parts
}

/// A turn toward `d` is refused when `d` is the head's direction or its opposite.
pub open spec fn turn_allowed(parts: Seq<Part>, d: Direction) -> bool {
    d != parts[0].direction && d != parts[0].direction.spec_opposite()
}

/// The segments after asking the head to face `d`.
pub open spec fn turned_parts(parts: Seq<Part>, d: Direction) -> Seq<Part> {
    if turn_allowed(parts, d) {
        parts.update(0, Part { position: parts[0].position, direction: d })
    } else {
        parts
    }
}

/// The two cells are side by side: one apart on exactly one axis.
pub open spec fn adjacent(a: Position, b: Position) -> bool {
    ((a.x - b.x == 1 || b.x - a.x == 1) && a.y == b.y) || ((a.y - b.y == 1 || b.y - a.y == 1)
        && a.x == b.x)
}

/// Asking the head to face the way it already faces changes nothing.
pub proof fn lemma_turn_to_current_direction_is_noop(parts: Seq<Part>, d: Direction)
    requires
        parts_wf(parts),
        parts[0].direction == d,
    ensures
        turned_parts(parts, d) == parts,
{
}

/// Right after a turn toward `d` succeeds, a turn toward the opposite of `d`
/// is refused and changes nothing.
pub proof fn lemma_reversal_after_turn_is_refused(parts: Seq<Part>, d: Direction)
    requires
        parts_wf(parts),
        turn_allowed(parts, d),
    ensures
        turned_parts(parts, d)[0].direction == d,
        !turn_allowed(turned_parts(parts, d), d.spec_opposite()),
        turned_parts(turned_parts(parts, d), d.spec_opposite()) == turned_parts(parts, d),
{
    let t = turned_parts(parts, d);
    assert(t[0].direction == d);
    assert(d.spec_opposite().spec_opposite() == d) by {
        match d {
            Direction::North => {},
            Direction::East => {},
            Direction::South => {},
            Direction::West => {},
        }
    }
}

/// Growing adds exactly one segment, in front, and leaves every existing
/// segment as it was.
pub proof fn lemma_grow_keeps_segments(parts: Seq<Part>)
    requires
        parts_wf(parts),
    ensures
        grown_parts(parts).len() == parts.len() + 1,
        forall|i: int| 0 <= i < parts.len() ==> grown_parts(parts)[i + 1] == #[trigger] parts[i],
        grown_parts(parts).subrange(1, grown_parts(parts).len() as int) == parts,
{
    assert(grown_parts(parts).subrange(1, grown_parts(parts).len() as int) =~= parts);
}

/// Advancing keeps the number of segments and moves every segment to a
/// neighbouring cell along its own direction; each segment behind the head
/// lands where the segment ahead of it stood.
pub proof fn lemma_advance_moves_each_segment_one_cell(parts: Seq<Part>)
    requires
        parts_wf(parts),
        parts[0].position.can_move(parts[0].direction),
    ensures
        advanced_parts(parts).len() == parts.len(),
        forall|i: int|
            0 <= i < parts.len() ==> parts[i].position.steps_to(
                parts[i].direction,
                (#[trigger] advanced_parts(parts)[i]).position,
            ),
        forall|i: int|
            0 <= i < parts.len() ==> adjacent(
                parts[i].position,
                (#[trigger] advanced_parts(parts)[i]).position,
            ),
        forall|i: int|
            1 <= i < parts.len() ==> (#[trigger] advanced_parts(parts)[i]).position == parts[i
                - 1].position,
{
    assert forall|i: int| 0 <= i < parts.len() implies parts[i].position.steps_to(
        parts[i].direction,
        (#[trigger] advanced_parts(parts)[i]).position,
    ) && adjacent(parts[i].position, advanced_parts(parts)[i].position) by {
        if i >= 1 {
            assert(parts[i].position.steps_to(parts[i].direction, parts[i - 1].position));
        }
    }
    assert forall|i: int| 1 <= i < parts.len() implies (#[trigger] advanced_parts(
        parts,
    )[i]).position == parts[i - 1].position by {
        assert(parts[i].position.steps_to(parts[i].direction, parts[i - 1].position));
    }
}

/// After two advances, each segment faces the way the segment two places
/// ahead of it faced before them; the first two segments face the way the
/// head faced.
pub proof fn lemma_two_advances_shift_directions(parts: Seq<Part>)
    requires
        parts.len() >= 1,
    ensures
        advanced_parts(advanced_parts(parts)).len() == parts.len(),
        forall|i: int|
            2 <= i < parts.len() ==> (#[trigger] advanced_parts(advanced_parts(parts))[i]).direction
                == parts[i - 2].direction,
        forall|i: int|
            0 <= i < 2 && i < parts.len() ==> (#[trigger] advanced_parts(
                advanced_parts(parts),
            )[i]).direction == parts[0].direction,
{
}

/// When no segment has turned (all face the head's direction), two advances
/// leave the tail facing the way the head faced before them.
pub proof fn lemma_straight_snake_tail_follows_head(parts: Seq<Part>)
    requires
        parts.len() >= 1,
        forall|i: int| 0 <= i < parts.len() ==> (#[trigger] parts[i]).direction == parts[0].direction,
    ensures
        advanced_parts(advanced_parts(parts)).last().direction == parts[0].direction,
{
    lemma_two_advances_shift_directions(parts);
    let n = parts.len() as int;
    if n >= 3 {
        assert(parts[n - 3].direction == parts[0].direction);
    }
}

/// For a snake of at most three segments, two advances leave the tail facing
/// the way the head faced before them, whatever the body's turns.
pub proof fn lemma_short_snake_tail_follows_head(parts: Seq<Part>)
    requires
        1 <= parts.len() <= 3,
    ensures
        advanced_parts(advanced_parts(parts)).last().direction == parts[0].direction,
{
    lemma_two_advances_shift_directions(parts);
}

/// A quarter turn never gives the same direction or its opposite.
pub proof fn lemma_quarter_turn_is_allowed(d: Direction, t: Turn)
    ensures
        d.spec_turned(t) != d,
        d.spec_turned(t) != d.spec_opposite(),
{
    match t {
        Turn::Left => match d {
            Direction::North => {},
            Direction::East => {},
            Direction::South => {},
            Direction::West => {},
        },
        Turn::Right => match d {
            Direction::North => {},
            Direction::East => {},
            Direction::South => {},
            Direction::West => {},
        },
    }
}

/// The snake: its segments, head first.
#[derive(Debug)]
pub struct Snake {
    parts: Vec<Part>,
}

impl View for Snake {
    type V = Seq<Part>;

    closed spec fn view(&self) -> Seq<Part> {
        self.parts@
    }
}

impl Snake {
    pub open spec fn wf(&self) -> bool {
        parts_wf(self@)
    }

    /// The head can take one more step without leaving `i32`.
    pub open spec fn head_can_move(&self) -> bool {
        self@[0].position.can_move(self@[0].direction)
    }

    /// A snake of one segment at the origin, facing North.
    pub fn new() -> (s: Snake)
        ensures
            s.wf(),
            s@ == seq![Part { position: Position { x: 0, y: 0 }, direction: Direction::North }],
    {
        Snake::starting_at(0, 0, Direction::North)
    }

    /// A snake of one segment at `(x, y)`, facing `direction`.
    pub fn starting_at(x: i32, y: i32, direction: Direction) -> (s: Snake)
        ensures
            s.wf(),
            s@ == seq![Part { position: Position { x, y }, direction }],
    {
        let p = Part { position: Position { x, y }, direction };
        let s = Snake { parts: vec![p] };
        assert(s@ =~= seq![p]);
        s
    }

    pub fn get_head_direction(&self) -> (r: Direction)
        requires
            self.wf(),
        ensures
            r == self@[0].direction,
    {
        self.parts[0].direction
    }

    pub fn get_head_position(&self) -> (r: Position)
        requires
            self.wf(),
        ensures
            r == self@[0].position,
    {
        self.parts[0].position
    }

    pub fn next_head_position(&self) -> (r: Position)
        requires
            self.wf(),
            self.head_can_move(),
        ensures
            r == self@[0].position.moved(self@[0].direction),
    {
        let dir = self.parts[0].direction;
        self.parts[0].position.advanced(dir)
    }

    pub fn get_positions(&self) -> (r: Vec<Position>)
        ensures
            r@ == positions_of(self@),
    {
        let mut r: Vec<Position> = Vec::new();
        let mut i: usize = 0;
        while i < self.parts.len()
            invariant
                i <= self.parts.len(),
                r@ == positions_of(self@.take(i as int)),
            decreases self.parts.len() - i,
        {
            r.push(self.parts[i].position);
            i = i + 1;
            assert(self@.take(i as int) =~= self@.take(i - 1).push(self@[i - 1]));
        }
        assert(self@.take(i as int) =~= self@);
        r
    }

    /// Whether some segment stands on `p`.
    pub fn occupies(&self, p: Position) -> (r: bool)
        ensures
            r == occupied(self@, p),
    {
        let mut i: usize = 0;
        while i < self.parts.len()
            invariant
                i <= self.parts.len(),
                forall|j: int| 0 <= j < i ==> (#[trigger] self@[j]).position != p,
            decreases self.parts.len() - i,
        {
            if self.parts[i].position == p {
                return true;
            }
            i = i + 1;
        }
        false
    }

    /// Whether the head stands on the cell of another segment.
    pub fn head_hits_body(&self) -> (r: bool)
        requires
            self.wf(),
        ensures
            r == head_on_body(self@),
    {
        let head = self.parts[0].position;
        let mut i: usize = 1;
        while i < self.parts.len()
            invariant
                1 <= i <= self.parts.len(),
                head == self@[0].position,
                forall|j: int| 1 <= j < i ==> (#[trigger] self@[j]).position != head,
            decreases self.parts.len() - i,
        {
            if self.parts[i].position == head {
                return true;
            }
            i = i + 1;
        }
        false
    }

    /// Moves every segment one step; directions shift one segment back.
    pub fn advance(&mut self)
        requires
            old(self).wf(),
            old(self).head_can_move(),
        ensures
            final(self).wf(),
            final(self)@ == advanced_parts(old(self)@),
    {
        let ghost start = self@;
        let mut last_direction = self.parts[0].direction;
        let mut i: usize = 0;
        while i < self.parts.len()
            invariant
                parts_wf(start),
                start[0].position.can_move(start[0].direction),
                self@.len() == start.len(),
                i <= self@.len(),
                forall|j: int| 0 <= j < i ==> #[trigger] self@[j] == advanced_parts(start)[j],
                forall|j: int| i <= j < self@.len() ==> #[trigger] self@[j] == start[j],
                i == 0 ==> last_direction == start[0].direction,
                i > 0 ==> last_direction == start[i - 1].direction,
            decreases self@.len() - i,
        {
            let p = self.parts[i];
            if i > 0 {
                assert(start[i as int].position.steps_to(start[i as int].direction, start[i - 1].position));
            }
            let moved = Part { position: p.position.advanced(p.direction), direction: last_direction };
            self.parts.set(i, moved);
            last_direction = p.direction;
            i = i + 1;
        }
        assert(self@ =~= advanced_parts(start));
        assert forall|i: int| 1 <= i < self@.len() implies #[trigger] self@[i].position.steps_to(
            self@[i].direction,
            self@[i - 1].position,
        ) by {
            assert(start[i].position.steps_to(start[i].direction, start[i - 1].position));
            if i >= 2 {
                assert(start[i - 1].position.steps_to(start[i - 1].direction, start[i - 2].position));
            }
        }
    }

    /// Adds a new head one step ahead of the current head, facing the same way.
    pub fn grow(&mut self)
        requires
            old(self).wf(),
            old(self).head_can_move(),
        ensures
            final(self).wf(),
            final(self)@ == grown_parts(old(self)@),
    {
        let position = self.parts[0].position;
        let direction = self.parts[0].direction;
        let new_part = Part { position: position.advanced(direction), direction };
        self.parts.insert(0, new_part);
        assert(self@ =~= grown_parts(old(self)@));
        assert forall|i: int| 1 <= i < self@.len() implies #[trigger] self@[i].position.steps_to(
            self@[i].direction,
            self@[i - 1].position,
        ) by {
            if i >= 2 {
                assert(old(self)@[i - 1].position.steps_to(old(self)@[i - 1].direction, old(self)@[i - 2].position));
            }
        }
    }

    /// Turns the head toward `direction` in place; a turn to the current
    /// direction or its opposite is ignored.
    pub fn change_head_direction(&mut self, direction: Direction)
        requires
            old(self).wf(),
        ensures
            final(self).wf(),
            final(self)@ == turned_parts(old(self)@, direction),
    {
        let head_direction = self.parts[0].direction;
        if head_direction == direction || direction == head_direction.opposite() {
            return;
        }
        let head = Part { position: self.parts[0].position, direction };
        self.parts.set(0, head);
        assert forall|i: int| 1 <= i < self@.len() implies #[trigger] self@[i].position.steps_to(
            self@[i].direction,
            self@[i - 1].position,
        ) by {
            assert(old(self)@[i].position.steps_to(old(self)@[i].direction, old(self)@[i - 1].position));
        }
    }

    /// Turns the head a quarter turn left or right, in place.
    pub fn turn(&mut self, t: Turn)
        requires
            old(self).wf(),
        ensures
            final(self).wf(),
            final(self)@ == turned_parts(old(self)@, old(self)@[0].direction.spec_turned(t)),
            final(self)@ == old(self)@.update(
                0,
                Part { position: old(self)@[0].position, direction: old(self)@[0].direction.spec_turned(t) },
            ),
    {
        let d = self.parts[0].direction.turned(t);
        proof {
            lemma_quarter_turn_is_allowed(self@[0].direction, t);
        }
        self.change_head_direction(d);
    }
}

} // verus!
