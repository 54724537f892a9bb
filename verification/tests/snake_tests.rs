use snake_game::game_engine::{Action, GameData, GameObject, Update};
use snake_game::game_utils::{Direction, Position};
use snake_game::snake::Snake;
use snake_game::snake_game_scene::{SnakeGameScene, SnakeGameSceneActions};
use snake_game::snake_parts::{SnakeBody, SnakeChain};

#[test]
fn fresh_chain_has_one_segment() {
    let chain = SnakeChain::new(20, 20);
    assert_eq!(chain.len(), 1);
}

#[test]
fn add_body_grows_by_one_each_time() {
    let mut chain = SnakeChain::new(20, 20);
    for n in 1..=10 {
        chain.add_body();
        assert_eq!(chain.len(), n + 1);
    }
}

#[test]
fn new_segments_trail_the_tail() {
    let mut chain = SnakeChain::new(20, 20);
    chain.add_body();
    chain.add_body();
    let cells: Vec<(u64, u64)> = chain
        .parts
        .iter()
        .map(|p| p.position.get_screen_coordinates())
        .collect();
    assert_eq!(cells, vec![(20, 20), (19, 20), (18, 20)]);
}

#[test]
fn single_segment_never_self_collides() {
    for (x, y) in [(0u16, 0u16), (20, 20), (57, 19)] {
        let chain = SnakeChain::new(x, y);
        assert!(!chain.self_collision());
    }
    let mut odd = SnakeChain::new(5, 5);
    odd.parts[0].direction = Direction::up();
    assert!(!odd.self_collision());
}

fn straight_chain(len: usize) -> SnakeChain {
    let mut parts = Vec::new();
    for i in 0..len {
        parts.push(SnakeBody {
            position: Position {
                x: 20000 - 1000 * i as i64,
                y: 9000,
            },
            direction: Direction::right(),
        });
    }
    SnakeChain { parts }
}

#[test]
fn segment_on_head_cell_collides() {
    let mut chain = straight_chain(5);
    chain.parts[3].position = Position { x: 20000, y: 9000 };
    assert!(chain.self_collision());
}

#[test]
fn segment_one_cell_away_does_not_collide() {
    let mut chain = straight_chain(5);
    chain.parts[3].position = Position { x: 19000, y: 9000 };
    assert!(!chain.self_collision());
}

#[test]
fn follow_shifts_every_segment_one_cell() {
    let mut chain = straight_chain(4);
    chain.parts[0].position = Position { x: 21000, y: 9000 };
    chain.follow(Direction::right());
    let cells: Vec<(u64, u64)> = chain
        .parts
        .iter()
        .map(|p| p.position.get_screen_coordinates())
        .collect();
    assert_eq!(cells, vec![(21, 9), (20, 9), (19, 9), (18, 9)]);
}

#[test]
fn follow_carries_corners_one_segment_per_tick() {
    let mut chain = straight_chain(3);
    chain.parts[0].direction = Direction::down();
    chain.parts[0].position = Position { x: 20000, y: 10000 };
    chain.follow(Direction::down());
    let cells: Vec<(u64, u64)> = chain
        .parts
        .iter()
        .map(|p| p.position.get_screen_coordinates())
        .collect();
    assert_eq!(cells, vec![(20, 10), (20, 9), (19, 9)]);
    assert_eq!(chain.parts[1].direction, Direction::down());
    assert_eq!(chain.parts[2].direction, Direction::right());
}

#[test]
fn new_snake_has_one_segment_five_lives() {
    let snake = Snake::new();
    assert_eq!(snake.screen_cells().len(), 1);
    assert_eq!(snake.lives(), 5);
    assert_eq!(snake.apples(), 0);
}

#[test]
fn snake_add_body_grows_chain() {
    let mut snake = Snake::new();
    snake.add_body();
    snake.add_body();
    assert_eq!(snake.screen_cells().len(), 3);
}

#[test]
fn restart_rebuilds_five_segments() {
    let mut snake = Snake::new();
    for _ in 0..9 {
        snake.add_body();
    }
    assert_eq!(snake.screen_cells().len(), 10);
    snake.scene_action(SnakeGameSceneActions::Restart);
    assert_eq!(snake.screen_cells().len(), 5);
    assert_eq!(snake.lives(), 5);
    assert_eq!(snake.apples(), 0);
}

#[test]
fn eat_apple_grows_and_counts() {
    let mut snake = Snake::new();
    snake.scene_action(SnakeGameSceneActions::EatApple);
    assert_eq!(snake.apples(), 1);
    assert_eq!(snake.screen_cells().len(), 2);
    assert_eq!(snake.lives(), 5);
}

#[test]
fn wall_hits_decrement_then_restart() {
    let mut snake = Snake::new();
    snake.scene_action(SnakeGameSceneActions::EatApple);
    assert_eq!(snake.apples(), 1);
    for expected in [4, 3, 2, 1] {
        snake.scene_action(SnakeGameSceneActions::HitWall);
        assert_eq!(snake.lives(), expected);
        assert_eq!(snake.screen_cells().len(), 5);
        assert_eq!(snake.apples(), 1);
    }
    snake.scene_action(SnakeGameSceneActions::HitWall);
    assert_eq!(snake.lives(), 5);
    assert_eq!(snake.apples(), 0);
    assert_eq!(snake.screen_cells().len(), 5);
}

#[test]
fn half_tick_moves_half_a_cell() {
    let mut snake = Snake::new();
    let start = snake.get_position();
    assert_eq!(start.x, 29000);
    snake.update(50);
    assert_eq!(snake.get_position().x, start.x + 500);
    snake.update(50);
    // From the back half of cell 30 the half step stays in cell 30: no
    // follow is triggered.
    assert_eq!(snake.get_position().x, start.x + 1000);
    assert_eq!(snake.get_position().get_screen_coordinates().0, 30);
}

#[test]
fn full_tick_shifts_all_descendants_one_cell() {
    let mut snake = Snake::new();
    snake.add_body();
    snake.add_body();
    snake.add_body();
    snake.add_body();
    let before = snake.screen_cells();
    assert_eq!(
        before,
        vec![(29, 9), (28, 9), (27, 9), (26, 9), (25, 9)]
    );
    snake.update(100);
    let after = snake.screen_cells();
    assert_eq!(after, vec![(30, 9), (29, 9), (28, 9), (27, 9), (26, 9)]);
    for w in after.windows(2) {
        assert_ne!(w[0], w[1]);
    }
}

#[test]
fn reversing_turn_is_ignored() {
    let mut snake = Snake::new();
    let x0 = snake.get_position().x;
    snake.action(Action::MoveLeft);
    snake.update(100);
    // Still moving right: the turn into the neck was refused.
    assert_eq!(snake.get_position().x, x0 + 1000);
}

#[test]
fn same_direction_turn_is_a_no_op() {
    let mut snake = Snake::new();
    let x0 = snake.get_position().x;
    snake.action(Action::MoveRight);
    snake.update(100);
    assert_eq!(snake.get_position().x, x0 + 1000);
}

#[test]
fn perpendicular_turn_is_taken() {
    let mut snake = Snake::new();
    let start = snake.get_position();
    snake.action(Action::MoveUp);
    snake.update(100);
    let p = snake.get_position();
    assert_eq!(p.x, start.x);
    assert_eq!(p.y, start.y - 1000);
}

#[test]
fn update_resolves_self_collision_like_a_wall_hit() {
    let mut snake = Snake::new();
    // Grow enough to bite the body after a tight double turn.
    for _ in 0..6 {
        snake.add_body();
    }
    snake.action(Action::MoveDown);
    snake.update(100);
    snake.action(Action::MoveLeft);
    snake.update(100);
    snake.action(Action::MoveUp);
    snake.update(100);
    // The head has looped back onto its own body: one life is gone and
    // the chain is back to the canonical five segments.
    assert_eq!(snake.lives(), 4);
    assert_eq!(snake.screen_cells().len(), 5);
}

#[test]
fn scene_starts_with_canonical_state() {
    let scene = SnakeGameScene::new();
    assert_eq!(scene.snake.lives(), 5);
    assert_eq!(scene.snake.apples(), 0);
    assert_eq!(scene.snake.screen_cells().len(), 5);
    // The head starts centered on the play field.
    assert_eq!(scene.snake.get_position().get_screen_coordinates(), (29, 9));
    let apple_cell = scene.apple.get_position().get_screen_coordinates();
    assert!((1..58).contains(&apple_cell.0));
    assert!((1..19).contains(&apple_cell.1));
}

#[test]
fn apple_relocations_stay_in_bounds() {
    let mut scene = SnakeGameScene::new();
    for _ in 0..100 {
        scene.apple.scene_action(SnakeGameSceneActions::EatApple);
        let cell = scene.apple.get_position().get_screen_coordinates();
        assert!((1..58).contains(&cell.0));
        assert!((1..19).contains(&cell.1));
    }
}

#[test]
fn apple_ignores_time_and_engine_actions() {
    let mut scene = SnakeGameScene::new();
    let before = scene.apple.get_position();
    scene.apple.update(1000);
    scene.apple.action(Action::MoveUp);
    scene.apple.scene_action(SnakeGameSceneActions::HitWall);
    assert!(scene.apple.get_position() == before);
}

#[test]
fn scene_update_eats_apple_on_overlap() {
    let mut scene = SnakeGameScene::new();
    let head = scene.snake.get_position();
    scene.apple = snake_game::apple::Apple::new(head);
    scene.update(0);
    assert_eq!(scene.snake.apples(), 1);
    assert_eq!(scene.snake.screen_cells().len(), 6);
    assert_eq!(scene.snake.lives(), 5);
}

#[test]
fn scene_update_punishes_leaving_the_field() {
    let mut scene = SnakeGameScene::new();
    // One long tick marches the head far past the right wall.
    scene.snake.update(3000);
    scene.update(0);
    assert_eq!(scene.snake.lives(), 4);
    assert_eq!(scene.snake.screen_cells().len(), 5);
}

#[test]
fn scene_update_in_field_changes_nothing() {
    let mut scene = SnakeGameScene::new();
    scene.apple = snake_game::apple::Apple::new(Position { x: 5000, y: 5000 });
    let lives = scene.snake.lives();
    let apples = scene.snake.apples();
    scene.update(0);
    assert_eq!(scene.snake.lives(), lives);
    assert_eq!(scene.snake.apples(), apples);
    assert_eq!(scene.snake.screen_cells().len(), 5);
}

#[test]
fn restart_resets_even_after_progress() {
    let mut scene = SnakeGameScene::new();
    let head = scene.snake.get_position();
    scene.apple = snake_game::apple::Apple::new(head);
    scene.update(0);
    scene.snake.scene_action(SnakeGameSceneActions::HitWall);
    assert_eq!(scene.snake.lives(), 4);
    assert_eq!(scene.snake.apples(), 1);
    scene.input(GameData {
        action: Action::Command('r'),
    });
    assert_eq!(scene.snake.lives(), 5);
    assert_eq!(scene.snake.apples(), 0);
    assert_eq!(scene.snake.screen_cells().len(), 5);
}

#[test]
fn four_wall_hits_then_one_full_restart() {
    let mut scene = SnakeGameScene::new();
    let head = scene.snake.get_position();
    scene.apple = snake_game::apple::Apple::new(head);
    scene.update(0);
    assert_eq!(scene.snake.apples(), 1);
    for expected in [4, 3, 2, 1] {
        scene.snake.update(3000);
        scene.update(0);
        assert_eq!(scene.snake.lives(), expected);
        assert_eq!(scene.snake.apples(), 1);
    }
    scene.snake.update(3000);
    scene.update(0);
    assert_eq!(scene.snake.lives(), 5);
    assert_eq!(scene.snake.apples(), 0);
    assert_eq!(scene.snake.screen_cells().len(), 5);
}

#[test]
fn input_routes_movement_to_the_snake() {
    let mut scene = SnakeGameScene::new();
    let start = scene.snake.get_position();
    scene.input(GameData {
        action: Action::MoveDown,
    });
    scene.snake.update(100);
    let p = scene.snake.get_position();
    assert_eq!(p.x, start.x);
    assert_eq!(p.y, start.y + 1000);
}

#[test]
fn input_ignores_unknown_commands_and_quit() {
    let mut scene = SnakeGameScene::new();
    scene.snake.scene_action(SnakeGameSceneActions::EatApple);
    scene.input(GameData {
        action: Action::Command('z'),
    });
    scene.input(GameData {
        action: Action::Quit,
    });
    assert_eq!(scene.snake.apples(), 1);
    assert_eq!(scene.snake.screen_cells().len(), 6);
}

#[test]
fn default_segment_parks_at_twenty_twenty() {
    let b = SnakeBody::default();
    assert_eq!(b.position.get_screen_coordinates(), (20, 20));
    assert_eq!(b.direction, Direction::right());
}

#[test]
fn default_snake_matches_new() {
    let snake = Snake::default();
    assert_eq!(snake.lives(), 5);
    assert_eq!(snake.apples(), 0);
    assert_eq!(snake.screen_cells().len(), 1);
}
