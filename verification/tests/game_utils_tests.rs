use snake_game::game_engine::{
    action_for_key, is_quit, logic_tick_due, render_refresh_due, Action, KeyEvent,
};
use snake_game::game_utils::{Direction, Position, Speed};

#[test]
fn opposite_twice_is_identity() {
    assert_eq!(Direction::up().opposite().opposite(), Direction::up());
    assert_eq!(Direction::down().opposite().opposite(), Direction::down());
    assert_eq!(Direction::left().opposite().opposite(), Direction::left());
    assert_eq!(Direction::right().opposite().opposite(), Direction::right());
}

#[test]
fn opposite_pairs() {
    assert_eq!(Direction::up().opposite(), Direction::down());
    assert_eq!(Direction::down().opposite(), Direction::up());
    assert_eq!(Direction::left().opposite(), Direction::right());
    assert_eq!(Direction::right().opposite(), Direction::left());
}

#[test]
fn canonical_directions_are_distinct() {
    let dirs = [
        Direction::up(),
        Direction::down(),
        Direction::left(),
        Direction::right(),
    ];
    for i in 0..dirs.len() {
        for j in 0..dirs.len() {
            if i != j {
                assert_ne!(dirs[i], dirs[j]);
            }
        }
    }
}

#[test]
fn direction_glyphs() {
    assert_eq!(Direction::up().glyph(), '^');
    assert_eq!(Direction::down().glyph(), 'v');
    assert_eq!(Direction::right().glyph(), '>');
    assert_eq!(Direction::left().glyph(), '<');
}

#[test]
fn position_equality_is_reflexive() {
    let p = Position { x: 5437, y: 12897 };
    assert!(p == p);
}

#[test]
fn position_equality_rounds_to_cells() {
    let a = Position { x: 5400, y: 5400 };
    let b = Position { x: 5490, y: 5490 };
    let c = Position { x: 5500, y: 5400 };
    assert!(a == b);
    assert!(a != c);
}

#[test]
fn screen_coordinates_round_half_up() {
    assert_eq!(Position { x: 5400, y: 5490 }.get_screen_coordinates(), (5, 5));
    assert_eq!(Position { x: 5500, y: 6499 }.get_screen_coordinates(), (6, 6));
    assert_eq!(Position { x: 0, y: 499 }.get_screen_coordinates(), (0, 0));
}

#[test]
fn screen_coordinates_clamp_negatives_to_zero() {
    assert_eq!(Position { x: -1, y: -12000 }.get_screen_coordinates(), (0, 0));
}

#[test]
fn advanced_moves_along_direction() {
    let p = Position { x: 20000, y: 9000 };
    let r = p.advanced(Direction::right(), 500);
    assert_eq!(r.x, 20500);
    assert_eq!(r.y, 9000);
    let u = p.advanced(Direction::up(), 1000);
    assert_eq!(u.x, 20000);
    assert_eq!(u.y, 8000);
}

#[test]
fn cell_behind_steps_one_cell_back() {
    let p = Position { x: 20000, y: 9000 };
    let b = p.cell_behind(Direction::right());
    assert_eq!(b.x, 19000);
    assert_eq!(b.y, 9000);
    let d = p.cell_behind(Direction::down());
    assert_eq!(d.x, 20000);
    assert_eq!(d.y, 8000);
}

#[test]
fn speed_steps_at_default_period() {
    let s = Speed::period_in_milliseconds(100);
    assert_eq!(s.steps_millicells(50), 500);
    assert_eq!(s.steps_millicells(100), 1000);
    assert_eq!(s.steps_millicells(0), 0);
}

#[test]
fn speed_from_seconds() {
    let s = Speed::_period_in_seconds(1);
    assert_eq!(s.steps_millicells(1000), 1000);
}

#[test]
fn key_mapping() {
    assert_eq!(action_for_key(KeyEvent::Esc), Some(Action::Quit));
    assert_eq!(action_for_key(KeyEvent::Up), Some(Action::MoveUp));
    assert_eq!(action_for_key(KeyEvent::Down), Some(Action::MoveDown));
    assert_eq!(action_for_key(KeyEvent::Left), Some(Action::MoveLeft));
    assert_eq!(action_for_key(KeyEvent::Right), Some(Action::MoveRight));
    assert_eq!(
        action_for_key(KeyEvent::Char('x')),
        Some(Action::Command('x'))
    );
    assert_eq!(action_for_key(KeyEvent::Other), None);
}

#[test]
fn quit_detection() {
    assert!(is_quit(Action::Quit));
    assert!(!is_quit(Action::MoveUp));
    assert!(!is_quit(Action::Command('q')));
}

#[test]
fn tick_cadences() {
    assert!(!logic_tick_due(100));
    assert!(logic_tick_due(101));
    assert!(!render_refresh_due(83_333));
    assert!(render_refresh_due(83_334));
}
