use snake_game::{draw_positions, Direction, Part, Position, Snake, Turn};

const ALL: [Direction; 4] = [Direction::North, Direction::East, Direction::South, Direction::West];

fn pos(x: i32, y: i32) -> Position {
    Position { x, y }
}

#[test]
fn opposite_pairs() {
    assert_eq!(Direction::North.opposite(), Direction::South);
    assert_eq!(Direction::South.opposite(), Direction::North);
    assert_eq!(Direction::East.opposite(), Direction::West);
    assert_eq!(Direction::West.opposite(), Direction::East);
}

#[test]
fn quarter_turns() {
    assert_eq!(Direction::North.turned(Turn::Left), Direction::West);
    assert_eq!(Direction::North.turned(Turn::Right), Direction::East);
    assert_eq!(Direction::East.turned(Turn::Left), Direction::North);
    assert_eq!(Direction::South.turned(Turn::Right), Direction::West);
    assert_eq!(Direction::West.turned(Turn::Right), Direction::North);
}

#[test]
fn advanced_moves_one_cell() {
    let p = pos(3, -2);
    assert_eq!(p.advanced(Direction::North), pos(3, -1));
    assert_eq!(p.advanced(Direction::East), pos(4, -2));
    assert_eq!(p.advanced(Direction::South), pos(3, -3));
    assert_eq!(p.advanced(Direction::West), pos(2, -2));
}

#[test]
fn fresh_snake_is_one_segment_at_origin() {
    let s = Snake::new();
    assert_eq!(s.get_positions(), vec![pos(0, 0)]);
    assert_eq!(s.get_head_direction(), Direction::North);
    assert_eq!(s.get_head_position(), pos(0, 0));
    assert_eq!(s.next_head_position(), pos(0, 1));
}

#[test]
fn turn_to_current_direction_is_noop() {
    for d in ALL {
        let mut s = Snake::starting_at(2, 7, d);
        s.change_head_direction(d);
        assert_eq!(s.get_positions(), vec![pos(2, 7)]);
        assert_eq!(s.get_head_direction(), d);
    }
}

#[test]
fn reversal_after_turn_is_refused() {
    for start in ALL {
        for t in [Turn::Left, Turn::Right] {
            let d = start.turned(t);
            let mut s = Snake::starting_at(0, 0, start);
            s.grow();
            s.change_head_direction(d);
            assert_eq!(s.get_head_direction(), d);
            let before = s.get_positions();
            s.change_head_direction(d.opposite());
            assert_eq!(s.get_head_direction(), d);
            assert_eq!(s.get_positions(), before);
        }
    }
}

#[test]
fn turn_north_east_then_west_keeps_east() {
    let mut s = Snake::new();
    s.change_head_direction(Direction::East);
    assert_eq!(s.get_head_direction(), Direction::East);
    s.change_head_direction(Direction::West);
    assert_eq!(s.get_head_direction(), Direction::East);
    assert_eq!(s.get_positions(), vec![pos(0, 0)]);
}

#[test]
fn reverse_of_fresh_snake_is_refused() {
    let mut s = Snake::new();
    s.change_head_direction(Direction::South);
    assert_eq!(s.get_head_direction(), Direction::North);
}

#[test]
fn turn_keeps_length_and_position() {
    let mut s = Snake::new();
    s.grow();
    s.grow();
    s.turn(Turn::Left);
    assert_eq!(s.get_head_direction(), Direction::West);
    assert_eq!(s.get_positions(), vec![pos(0, 2), pos(0, 1), pos(0, 0)]);
    s.advance();
    assert_eq!(s.get_positions(), vec![pos(-1, 2), pos(0, 2), pos(0, 1)]);
}

#[test]
fn grow_adds_one_segment_in_front() {
    let mut s = Snake::starting_at(1, 1, Direction::East);
    s.grow();
    assert_eq!(s.get_positions(), vec![pos(2, 1), pos(1, 1)]);
    s.change_head_direction(Direction::South);
    let before = s.get_positions();
    s.grow();
    let after = s.get_positions();
    assert_eq!(after.len(), before.len() + 1);
    assert_eq!(after[0], pos(2, 0));
    assert_eq!(&after[1..], &before[..]);
    assert_eq!(s.get_head_direction(), Direction::South);
}

#[test]
fn three_grows_then_advance() {
    let mut s = Snake::new();
    s.grow();
    s.grow();
    s.grow();
    let ps = s.get_positions();
    assert_eq!(ps.len(), 4);
    assert_eq!(ps[0], pos(0, 3));
    s.advance();
    let ps = s.get_positions();
    assert_eq!(ps, vec![pos(0, 4), pos(0, 3), pos(0, 2), pos(0, 1)]);
    assert_eq!(s.get_head_position(), pos(0, 4));
}

#[test]
fn advance_moves_every_segment_one_cell() {
    let mut s = Snake::new();
    s.grow();
    s.grow();
    s.change_head_direction(Direction::East);
    s.advance();
    s.change_head_direction(Direction::South);
    let before = s.get_positions();
    s.advance();
    let after = s.get_positions();
    assert_eq!(after.len(), before.len());
    for i in 0..after.len() {
        let d = (after[i].x - before[i].x).abs() + (after[i].y - before[i].y).abs();
        assert_eq!(d, 1);
    }
    for i in 1..after.len() {
        assert_eq!(after[i], before[i - 1]);
    }
}

#[test]
fn tail_follows_head_after_two_advances() {
    let mut s = Snake::new();
    s.grow();
    s.grow();
    s.change_head_direction(Direction::East);
    s.advance();
    s.advance();
    let ps = s.get_positions();
    // The tail now stands where the head stood two advances ago and moves East next.
    assert_eq!(ps, vec![pos(2, 2), pos(1, 2), pos(0, 2)]);
    s.advance();
    assert_eq!(s.get_positions(), vec![pos(3, 2), pos(2, 2), pos(1, 2)]);
}

#[test]
fn head_running_into_body_is_detected() {
    let mut s = Snake::new();
    for _ in 0..4 {
        s.grow();
    }
    assert!(!s.head_hits_body());
    s.change_head_direction(Direction::East);
    s.advance();
    s.change_head_direction(Direction::South);
    s.advance();
    s.change_head_direction(Direction::West);
    s.advance();
    assert_eq!(s.get_head_position(), pos(0, 3));
    assert!(s.head_hits_body());
}

#[test]
fn occupies_checks_every_segment() {
    let mut s = Snake::new();
    s.grow();
    assert!(s.occupies(pos(0, 0)));
    assert!(s.occupies(pos(0, 1)));
    assert!(!s.occupies(pos(1, 0)));
}

#[test]
fn draw_three_positions() {
    let text = draw_positions(vec![pos(0, 0), pos(1, 1), pos(2, 0)]);
    assert_eq!(text, " # \n# #");
}

#[test]
fn draw_single_position() {
    assert_eq!(draw_positions(vec![pos(-4, 9)]), "#");
}

#[test]
fn draw_snake_as_text() {
    let mut s = Snake::new();
    s.grow();
    s.change_head_direction(Direction::East);
    s.advance();
    assert_eq!(s.to_text(), "##");
    s.change_head_direction(Direction::South);
    s.advance();
    assert_eq!(s.to_text(), "#\n#");
}

#[test]
fn part_holds_position_and_direction() {
    let p = Part { position: pos(1, 2), direction: Direction::West };
    assert_eq!(p.position.advanced(p.direction), pos(0, 2));
}
