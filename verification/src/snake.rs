use crate::game_engine::{Action, GameObject, Update, GAME_AREA_HEIGHT, GAME_AREA_WIDTH};
use crate::game_utils::{lemma_opposite_involution, Direction, Position, Speed};
use crate::snake_game_scene::SnakeGameSceneActions;
use crate::snake_parts::{SnakeBody, SnakeChain};
use vstd::prelude::*;

verus! {

pub const DEFAULT_POSITION_X: u16 = GAME_AREA_WIDTH / 2;

pub const DEFAULT_POSITION_Y: u16 = GAME_AREA_HEIGHT / 2;

pub const STARTING_LIVES: u16 = 5;

pub const DEFAULT_PERIOD_MILLIS: u128 = 100;

/// The snake: its body chain, its speed, and the lives and apples
/// counters the HUD shows.
#[derive(Clone, Debug)]
pub struct Snake {
    body: SnakeChain,
    speed: Speed,
    lives: u16,
    apples: u16,
}

impl Snake {
    /// The body chain, head first.
    pub closed spec fn chain(self) -> Seq<SnakeBody> {
        self.body.parts@
    }

    pub closed spec fn lives_spec(self) -> u16 {
        self.lives
    }

    pub closed spec fn apples_spec(self) -> u16 {
        self.apples
    }

    pub closed spec fn speed_spec(self) -> Speed {
        self.speed
    }

    /// A snake is well formed when its chain is, it has a life left, and
    /// its speed period is positive.
    pub closed spec fn wf(self) -> bool {
        self.body.wf() && self.lives >= 1 && self.speed.period() >= 1
    }

    /// The canonical start chain: five segments centered on the play
    /// field, trailing leftward from the head, all facing right.
    pub open spec fn start_chain() -> Seq<SnakeBody> {
        Seq::new(
            5,
            |i: int|
                SnakeBody {
                    position: Position {
                        x: (DEFAULT_POSITION_X as int * 1000 - i * 1000) as i64,
                        y: (DEFAULT_POSITION_Y as int * 1000) as i64,
                    },
                    direction: Direction::right_spec(),
                },
        )
    }

    /// A new snake: a single head segment centered on the play field,
    /// facing right, five lives, no apples eaten, one cell per 100 ms.
    pub fn new() -> (s: Snake)
        ensures
            s.wf(),
            s.chain().len() == 1,
            s.chain()[0] == SnakeBody::at_cell_spec(
                DEFAULT_POSITION_X as int,
                DEFAULT_POSITION_Y as int,
            ),
            s.lives_spec() == STARTING_LIVES,
            s.apples_spec() == 0,
            s.speed_spec().period() == DEFAULT_PERIOD_MILLIS,
    {
        Snake {
            body: SnakeChain::new(DEFAULT_POSITION_X, DEFAULT_POSITION_Y),
            speed: Speed::period_in_milliseconds(DEFAULT_PERIOD_MILLIS),
            lives: STARTING_LIVES,
            apples: 0,
        }
    }

    /// Grow the chain by one segment behind the tail.
    pub fn add_body(&mut self)
        requires
            old(self).wf(),
            old(self).chain().len() < usize::MAX,
        ensures
            final(self).wf(),
            final(self).chain() == SnakeChain::grown_spec(old(self).chain()),
            final(self).chain().len() == old(self).chain().len() + 1,
            final(self).lives_spec() == old(self).lives_spec(),
            final(self).apples_spec() == old(self).apples_spec(),
            final(self).speed_spec() == old(self).speed_spec(),
    {
        self.body.add_body();
    }

    pub fn apples(&self) -> (n: u16)
        ensures
            n == self.apples_spec(),
    {
        self.apples
    }

    pub fn lives(&self) -> (n: u16)
        ensures
            n == self.lives_spec(),
    {
        self.lives
    }

    pub fn speed(&self) -> (s: Speed)
        ensures
            s == self.speed_spec(),
    {
        self.speed
    }

    /// The head's position, the one the scene checks against walls and
    /// the apple.
    pub fn get_position(&self) -> (p: Position)
        requires
            self.wf(),
        ensures
            p == self.chain()[0].position,
    {
        self.body.head().position
    }

    /// The screen cell of every segment, head first, for the renderer.
    pub fn screen_cells(&self) -> (cells: Vec<(u64, u64)>)
        requires
            self.wf(),
        ensures
            cells@.len() == self.chain().len(),
            forall|i: int|
                0 <= i < cells@.len() ==> #[trigger] cells@[i] == (
                    crate::game_utils::cell_of(self.chain()[i].position.x as int) as u64,
                    crate::game_utils::cell_of(self.chain()[i].position.y as int) as u64,
                ),
    {
        let n = self.body.len();
        let mut cells: Vec<(u64, u64)> = Vec::new();
        let mut i: usize = 0;
        while i < n
            invariant
                0 <= i <= n,
                n == self.chain().len(),
                cells@.len() == i,
                forall|j: int|
                    0 <= j < i ==> #[trigger] cells@[j] == (
                        crate::game_utils::cell_of(self.chain()[j].position.x as int) as u64,
                        crate::game_utils::cell_of(self.chain()[j].position.y as int) as u64,
                    ),
            decreases n - i,
        {
            let cell = self.body.parts[i].position.get_screen_coordinates();
            cells.push(cell);
            i = i + 1;
        }
        cells
    }

    /// Rebuild the chain to the canonical start: recenter the head, drop
    /// the tail, and regrow four segments.
    fn reset(&mut self)
        requires
            old(self).wf(),
        ensures
            final(self).wf(),
            final(self).chain() == Self::start_chain(),
            final(self).lives_spec() == old(self).lives_spec(),
            final(self).apples_spec() == old(self).apples_spec(),
            final(self).speed_spec() == old(self).speed_spec(),
    {
        self.body.reset_to(DEFAULT_POSITION_X, DEFAULT_POSITION_Y);
        self.body.add_body();
        self.body.add_body();
        self.body.add_body();
        self.body.add_body();
        proof {
            assert(self.body.parts@ =~= Self::start_chain());
        }
    }

    /// Record one eaten apple: the chain grows by a segment and the
    /// counter advances.
    fn eat_apple(&mut self)
        requires
            old(self).wf(),
            old(self).apples_spec() < u16::MAX,
            old(self).chain().len() < usize::MAX,
        ensures
            final(self).wf(),
            final(self).chain() == SnakeChain::grown_spec(old(self).chain()),
            final(self).apples_spec() == old(self).apples_spec() + 1,
            final(self).lives_spec() == old(self).lives_spec(),
            final(self).speed_spec() == old(self).speed_spec(),
    {
        self.body.add_body();
        self.apples = self.apples + 1;
    }

    /// Lose a life against a wall or against the snake's own body: with
    /// more than one life left the chain resets and a life is taken;
    /// with the last life gone the whole game restarts.
    fn hit_wall(&mut self)
        requires
            old(self).wf(),
        ensures
            final(self).wf(),
            final(self).chain() == Self::start_chain(),
            final(self).speed_spec() == old(self).speed_spec(),
            old(self).lives_spec() > 1 ==> final(self).lives_spec() == old(self).lives_spec() - 1
                && final(self).apples_spec() == old(self).apples_spec(),
            old(self).lives_spec() == 1 ==> final(self).lives_spec() == STARTING_LIVES && final(self).apples_spec() == 0,
    {
        if self.lives > 1 {
            self.lives = self.lives - 1;
            self.reset();
        } else {
            self.restart();
        }
    }

    /// Start the game over: full lives, no apples, canonical chain.
    fn restart(&mut self)
        requires
            old(self).wf(),
        ensures
            final(self).wf(),
            final(self).chain() == Self::start_chain(),
            final(self).lives_spec() == STARTING_LIVES,
            final(self).apples_spec() == 0,
            final(self).speed_spec() == old(self).speed_spec(),
    {
        self.lives = STARTING_LIVES;
        self.apples = 0;
        self.reset();
    }

    /// The chain once the head has moved `steps` millicells along its
    /// facing, before any follow step.
    pub open spec fn moved_chain(chain: Seq<SnakeBody>, steps: int) -> Seq<SnakeBody> {
        chain.update(
            0,
            SnakeBody {
                position: chain[0].position.advanced_spec(chain[0].direction, steps),
                direction: chain[0].direction,
            },
        )
    }

    /// The direction the head ends up facing when `action` asks for a
    /// turn: a turn into the current direction or its exact opposite is
    /// refused; anything else is taken.
    pub open spec fn requested_direction(action: Action) -> Option<Direction> {
        match action {
            Action::MoveUp => Some(Direction::up_spec()),
            Action::MoveDown => Some(Direction::down_spec()),
            Action::MoveLeft => Some(Direction::left_spec()),
            Action::MoveRight => Some(Direction::right_spec()),
            _ => None,
        }
    }

    pub open spec fn turned_direction(d0: Direction, action: Action) -> Direction {
        match Self::requested_direction(action) {
            Some(nd) => if nd != d0 && nd.opposite_spec() != d0 {
                nd
            } else {
                d0
            },
            None => d0,
        }
    }
}

impl Update for Snake {
    open spec fn obj_inv(&self) -> bool {
        self.wf()
    }

    /// One logic tick: advance the head by elapsed time at the current
    /// speed; if its cell changed, run the follow step and resolve any
    /// self-collision like a wall hit.
    fn update(&mut self, elapsed_ms: u64)
        ensures
            ({
                let steps = old(self).speed_spec().steps_millicells_spec(elapsed_ms as int);
                let moved = Self::moved_chain(old(self).chain(), steps);
                let d0 = old(self).chain()[0].direction;
                let followed = SnakeChain::followed_spec(moved, d0);
                &&& final(self).speed_spec() == old(self).speed_spec()
                &&& (moved[0].position.same_cell(old(self).chain()[0].position) ==> {
                    &&& final(self).chain() == moved
                    &&& final(self).lives_spec() == old(self).lives_spec()
                    &&& final(self).apples_spec() == old(self).apples_spec()
                })
                &&& (!moved[0].position.same_cell(old(self).chain()[0].position) ==> {
                    &&& (!SnakeChain::collides_spec(followed) ==> {
                        &&& final(self).chain() == followed
                        &&& final(self).lives_spec() == old(self).lives_spec()
                        &&& final(self).apples_spec() == old(self).apples_spec()
                    })
                    &&& (SnakeChain::collides_spec(followed) ==> {
                        &&& final(self).chain() == Self::start_chain()
                        &&& (old(self).lives_spec() > 1 ==> final(self).lives_spec() == old(self).lives_spec() - 1 && final(self).apples_spec() == old(self).apples_spec())
                        &&& (old(self).lives_spec() == 1 ==> final(self).lives_spec()
                            == STARTING_LIVES && final(self).apples_spec() == 0)
                    })
                })
            }),
    {
        let head = self.body.head();
        let d0 = head.direction;
        let steps = self.speed.steps_millicells(elapsed_ms);
        let before = head.position.get_screen_coordinates();
        proof {
            assert(self.body.parts@[0].wf());
        }
        let new_pos = head.position.advanced(d0, steps);
        let moved_head = SnakeBody { position: new_pos, direction: d0 };
        self.body.parts[0] = moved_head;
        let after = new_pos.get_screen_coordinates();
        if before.0 != after.0 || before.1 != after.1 {
            self.body.follow(d0);
            if self.body.self_collision() {
                self.hit_wall();
            }
        }
    }
}

impl GameObject for Snake {
    type Item = SnakeGameSceneActions;

    open spec fn scene_action_allowed(&self, action: SnakeGameSceneActions) -> bool {
        action == SnakeGameSceneActions::EatApple ==> self.apples_spec() < u16::MAX
            && self.chain().len() < usize::MAX
    }

    /// Steer the head: a requested turn is taken unless it equals the
    /// current direction or reverses it outright; other actions are
    /// ignored.
    fn action(&mut self, action: Action)
        ensures
            final(self).chain().len() == old(self).chain().len(),
            final(self).chain()[0].direction == Self::turned_direction(
                old(self).chain()[0].direction,
                action,
            ),
            final(self).chain()[0].position == old(self).chain()[0].position,
            forall|i: int|
                1 <= i < old(self).chain().len() ==> #[trigger] final(self).chain()[i] == old(self).chain()[i],
            final(self).lives_spec() == old(self).lives_spec(),
            final(self).apples_spec() == old(self).apples_spec(),
            final(self).speed_spec() == old(self).speed_spec(),
    {
        let body_direction = self.body.head().direction;
        let (new_direction, opposite_direction) = match action {
            Action::MoveDown => (Direction::down(), Direction::up()),
            Action::MoveUp => (Direction::up(), Direction::down()),
            Action::MoveRight => (Direction::right(), Direction::left()),
            Action::MoveLeft => (Direction::left(), Direction::right()),
            _ => {
                return ;
            },
        };
        if new_direction != body_direction && opposite_direction != body_direction {
            let turned = SnakeBody { position: self.body.parts[0].position, direction: new_direction };
            self.body.parts[0] = turned;
        }
    }

    /// React to a scene event: grow on an eaten apple, lose a life on a
    /// wall hit, start over on a restart.
    fn scene_action(&mut self, action: SnakeGameSceneActions)
        ensures
            final(self).speed_spec() == old(self).speed_spec(),
            action == SnakeGameSceneActions::EatApple ==> final(self).chain()
                == SnakeChain::grown_spec(old(self).chain()) && final(self).apples_spec() == old(self).apples_spec() + 1 && final(self).lives_spec() == old(self).lives_spec(),
            action == SnakeGameSceneActions::HitWall ==> final(self).chain() == Self::start_chain()
                && (old(self).lives_spec() > 1 ==> final(self).lives_spec() == old(self).lives_spec() - 1 && final(self).apples_spec() == old(self).apples_spec()) && (old(self).lives_spec() == 1 ==> final(self).lives_spec() == STARTING_LIVES && final(self).apples_spec() == 0),
            action == SnakeGameSceneActions::Restart ==> final(self).chain() == Self::start_chain()
                && final(self).lives_spec() == STARTING_LIVES && final(self).apples_spec() == 0,
    {
        match action {
            SnakeGameSceneActions::EatApple => self.eat_apple(),
            SnakeGameSceneActions::HitWall => self.hit_wall(),
            SnakeGameSceneActions::Restart => self.restart(),
        }
    }
}

impl Default for Snake {
    /// The same snake `new` builds.
    fn default() -> (s: Snake)
        ensures
            s.wf(),
            s.chain().len() == 1,
            s.lives_spec() == STARTING_LIVES,
            s.apples_spec() == 0,
    {
        Snake::new()
    }
}

/// Turning to the exact opposite of the current direction, or to the
/// current direction itself, leaves the direction unchanged; any other
/// requested turn is taken.
pub proof fn lemma_turn_rules(d0: Direction, action: Action)
    requires
        d0.is_canonical(),
    ensures
        match Snake::requested_direction(action) {
            Some(nd) => Snake::turned_direction(d0, action) == (if nd == d0 || nd
                == d0.opposite_spec() {
                d0
            } else {
                nd
            }),
            None => Snake::turned_direction(d0, action) == d0,
        },
{
    lemma_opposite_involution(d0);
    match Snake::requested_direction(action) {
        Some(nd) => {
            lemma_opposite_involution(nd);
        },
        None => {},
    }
}

/// Sub-cell motion at the default speed: half a tick period moving right
/// advances the head's continuous coordinate by exactly half a cell, and
/// from the back half of a cell the rounded cell does not change, so no
/// follow step is triggered; a full tick period advances it a whole cell
/// and always moves the rounded cell by one.
pub proof fn lemma_half_tick_motion(s: Snake)
    requires
        s.wf(),
        s.speed_spec().period() == 100,
        s.chain()[0].direction == Direction::right_spec(),
        0 <= s.chain()[0].position.x,
        s.chain()[0].position.x + 1000 <= i64::MAX as int,
    ensures
        Snake::moved_chain(s.chain(), s.speed_spec().steps_millicells_spec(50))[0].position.x == s.chain()[0].position.x + 500,
        Snake::moved_chain(s.chain(), s.speed_spec().steps_millicells_spec(50))[0].position.y == s.chain()[0].position.y,
        s.chain()[0].position.x % 1000 >= 500 ==> Snake::moved_chain(
            s.chain(),
            s.speed_spec().steps_millicells_spec(50),
        )[0].position.same_cell(s.chain()[0].position),
        Snake::moved_chain(s.chain(), s.speed_spec().steps_millicells_spec(100))[0].position.x == s.chain()[0].position.x + 1000,
        crate::game_utils::cell_of(
            Snake::moved_chain(s.chain(), s.speed_spec().steps_millicells_spec(100))[0].position.x as int,
        ) == crate::game_utils::cell_of(s.chain()[0].position.x as int) + 1,
        !Snake::moved_chain(s.chain(), s.speed_spec().steps_millicells_spec(100))[0].position.same_cell(s.chain()[0].position),
{
    s.speed_spec().lemma_tick_distance();
    let p = s.chain()[0].position;
    if p.x % 1000 >= 500 {
        crate::game_utils::lemma_half_step_same_cell(p.x as int);
    }
    crate::game_utils::lemma_cell_shift_one(p.x as int);
}

} // verus!
