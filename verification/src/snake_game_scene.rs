use crate::apple::Apple;
use crate::game_engine::{Action, GameData, GameObject, GAME_AREA_HEIGHT, GAME_AREA_WIDTH};
use crate::game_utils::{cell_of, Position};
use crate::snake::Snake;
use vstd::prelude::*;

verus! {

/// The scene-wide events of the snake game, broadcast to every registered
/// object; each object decides what is relevant to it.
#[derive(Clone, Copy, PartialEq, Eq, Structural, Debug)]
pub enum SnakeGameSceneActions {
    EatApple,
    HitWall,
    Restart,
}

/// The snake game's ruleset: it owns the snake and the apple, checks the
/// cross-entity rules each tick, and turns raw input into object actions.
pub struct SnakeGameScene {
    pub snake: Snake,
    pub apple: Apple,
}

impl SnakeGameScene {
    pub open spec fn wf(self) -> bool {
        self.snake.wf()
    }

    /// Whether a head at `p` has left the playable area.
    pub open spec fn wall_hit_spec(p: Position) -> bool {
        !(1 <= cell_of(p.x as int) <= GAME_AREA_WIDTH as int) || !(1 <= cell_of(p.y as int)
            <= GAME_AREA_HEIGHT as int)
    }

    /// Whether a head at `p` inside the field sits on the apple's cell.
    pub open spec fn apple_hit_spec(p: Position, apple: Position) -> bool {
        !Self::wall_hit_spec(p) && p.same_cell(apple)
    }

    /// A fresh scene: the canonical five-segment snake and an apple on a
    /// random in-bounds cell.
    pub fn new() -> (s: SnakeGameScene)
        ensures
            s.wf(),
            s.snake.chain() == Snake::start_chain(),
            s.snake.lives_spec() == crate::snake::STARTING_LIVES,
            s.snake.apples_spec() == 0,
            Apple::in_field_spec(s.apple.position_spec()),
    {
        let mut snake = Snake::new();
        snake.add_body();
        snake.add_body();
        snake.add_body();
        snake.add_body();
        proof {
            assert(snake.chain() =~= Snake::start_chain());
        }
        let apple = Apple::default();
        SnakeGameScene { snake, apple }
    }

    /// Broadcast an eaten apple: the apple moves, the snake grows.
    fn eat_apple(&mut self)
        requires
            old(self).wf(),
            old(self).snake.apples_spec() < u16::MAX,
            old(self).snake.chain().len() < usize::MAX,
        ensures
            final(self).wf(),
            Apple::in_field_spec(final(self).apple.position_spec()),
            final(self).snake.chain() == crate::snake_parts::SnakeChain::grown_spec(
                old(self).snake.chain(),
            ),
            final(self).snake.apples_spec() == old(self).snake.apples_spec() + 1,
            final(self).snake.lives_spec() == old(self).snake.lives_spec(),
    {
        self.apple.scene_action(SnakeGameSceneActions::EatApple);
        self.snake.scene_action(SnakeGameSceneActions::EatApple);
    }

    /// Broadcast a wall hit: the apple ignores it, the snake loses a life.
    fn hit_wall(&mut self)
        requires
            old(self).wf(),
        ensures
            final(self).wf(),
            final(self).apple.position_spec() == old(self).apple.position_spec(),
            final(self).snake.chain() == Snake::start_chain(),
            old(self).snake.lives_spec() > 1 ==> final(self).snake.lives_spec() == old(self).snake.lives_spec() - 1 && final(self).snake.apples_spec() == old(self).snake.apples_spec(),
            old(self).snake.lives_spec() == 1 ==> final(self).snake.lives_spec()
                == crate::snake::STARTING_LIVES && final(self).snake.apples_spec() == 0,
    {
        self.apple.scene_action(SnakeGameSceneActions::HitWall);
        self.snake.scene_action(SnakeGameSceneActions::HitWall);
    }

    /// Broadcast a restart: the apple ignores it, the snake starts over.
    fn restart(&mut self)
        requires
            old(self).wf(),
        ensures
            final(self).wf(),
            final(self).apple.position_spec() == old(self).apple.position_spec(),
            final(self).snake.chain() == Snake::start_chain(),
            final(self).snake.lives_spec() == crate::snake::STARTING_LIVES,
            final(self).snake.apples_spec() == 0,
    {
        self.apple.scene_action(SnakeGameSceneActions::Restart);
        self.snake.scene_action(SnakeGameSceneActions::Restart);
    }

    /// The command keys: `r` restarts the game, anything else is ignored.
    fn controls(&mut self, c: char)
        requires
            old(self).wf(),
        ensures
            final(self).wf(),
            final(self).apple.position_spec() == old(self).apple.position_spec(),
            (c == 'r' || c == 'R') ==> final(self).snake.chain() == Snake::start_chain() && final(self).snake.lives_spec() == crate::snake::STARTING_LIVES && final(self).snake.apples_spec() == 0,
            !(c == 'r' || c == 'R') ==> final(self).snake == old(self).snake,
    {
        match c {
            'r' | 'R' => self.restart(),
            _ => (),
        }
    }

    /// The per-tick rule check: a head outside the field costs a life; a
    /// head on the apple's cell eats it; otherwise nothing happens.
    pub fn update(&mut self, _interval_ms: u64)
        requires
            old(self).wf(),
            Self::apple_hit_spec(
                old(self).snake.chain()[0].position,
                old(self).apple.position_spec(),
            ) ==> old(self).snake.apples_spec() < u16::MAX && old(self).snake.chain().len()
                < usize::MAX,
        ensures
            final(self).wf(),
            Self::wall_hit_spec(old(self).snake.chain()[0].position) ==> {
                &&& final(self).apple.position_spec() == old(self).apple.position_spec()
                &&& final(self).snake.chain() == Snake::start_chain()
                &&& (old(self).snake.lives_spec() > 1 ==> final(self).snake.lives_spec() == old(self).snake.lives_spec() - 1 && final(self).snake.apples_spec() == old(self).snake.apples_spec())
                &&& (old(self).snake.lives_spec() == 1 ==> final(self).snake.lives_spec()
                    == crate::snake::STARTING_LIVES && final(self).snake.apples_spec() == 0)
            },
            Self::apple_hit_spec(
                old(self).snake.chain()[0].position,
                old(self).apple.position_spec(),
            ) ==> {
                &&& Apple::in_field_spec(final(self).apple.position_spec())
                &&& final(self).snake.chain() == crate::snake_parts::SnakeChain::grown_spec(
                    old(self).snake.chain(),
                )
                &&& final(self).snake.apples_spec() == old(self).snake.apples_spec() + 1
                &&& final(self).snake.lives_spec() == old(self).snake.lives_spec()
            },
            !Self::wall_hit_spec(old(self).snake.chain()[0].position) && !Self::apple_hit_spec(
                old(self).snake.chain()[0].position,
                old(self).apple.position_spec(),
            ) ==> final(self).snake == old(self).snake && final(self).apple.position_spec() == old(self).apple.position_spec(),
    {
        let snake_position = self.snake.get_position();
        let apple_position = self.apple.get_position();
        let cell = snake_position.get_screen_coordinates();
        if cell.0 < 1 || cell.0 > GAME_AREA_WIDTH as u64 || cell.1 < 1 || cell.1
            > GAME_AREA_HEIGHT as u64 {
            self.hit_wall();
        } else if snake_position == apple_position {
            self.eat_apple();
        }
    }

    /// Route one input message: movement actions steer the snake, command
    /// characters go to the control keys, everything else is ignored.
    pub fn input(&mut self, game_data: GameData)
        requires
            old(self).wf(),
        ensures
            final(self).wf(),
            final(self).apple.position_spec() == old(self).apple.position_spec(),
            (game_data.action matches Action::Command(c)) ==> {
                &&& ((game_data.action == Action::Command('r') || game_data.action
                    == Action::Command('R')) ==> final(self).snake.chain() == Snake::start_chain()
                    && final(self).snake.lives_spec() == crate::snake::STARTING_LIVES && final(self).snake.apples_spec() == 0)
                &&& (!(game_data.action == Action::Command('r') || game_data.action
                    == Action::Command('R')) ==> final(self).snake == old(self).snake)
            },
            (game_data.action == Action::MoveUp || game_data.action == Action::MoveDown
                || game_data.action == Action::MoveLeft || game_data.action == Action::MoveRight)
                ==> {
                &&& final(self).snake.chain().len() == old(self).snake.chain().len()
                &&& final(self).snake.chain()[0].direction == Snake::turned_direction(
                    old(self).snake.chain()[0].direction,
                    game_data.action,
                )
                &&& final(self).snake.chain()[0].position == old(self).snake.chain()[0].position
                &&& final(self).snake.lives_spec() == old(self).snake.lives_spec()
                &&& final(self).snake.apples_spec() == old(self).snake.apples_spec()
            },
            game_data.action == Action::Quit ==> final(self).snake == old(self).snake,
    {
        match game_data.action {
            Action::Command(c) => self.controls(c),
            Action::MoveDown | Action::MoveUp | Action::MoveLeft | Action::MoveRight => {
                self.snake.action(game_data.action);
            },
            _ => (),
        }
    }
}

} // verus!
