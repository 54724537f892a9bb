use crate::game_engine::{Action, GameObject, Update, GAME_AREA_HEIGHT, GAME_AREA_WIDTH};
use crate::game_utils::Position;
use crate::snake_game_scene::SnakeGameSceneActions;
use rand::Rng;
use vstd::prelude::*;

verus! {

/// Relies on rand::thread_rng and rand::Rng::gen_range: the drawn value
/// lies in `[lo, hi)`; the call panics only on an empty range, which the
/// precondition rules out.
#[verifier::external_body]
fn random_in_range(lo: u16, hi: u16) -> (r: u16)
    requires
        lo < hi,
    ensures
        lo <= r < hi,
{
    rand::thread_rng().gen_range(lo..hi)
}

/// The apple: a single position on the play field, re-rolled uniformly at
/// random whenever the snake eats it.
#[derive(Clone, Debug)]
pub struct Apple {
    position: Position,
}

impl Apple {
    pub closed spec fn position_spec(self) -> Position {
        self.position
    }

    pub fn new(position: Position) -> (a: Apple)
        ensures
            a.position_spec() == position,
    {
        Apple { position }
    }

    /// Whether a position sits centered on an in-bounds play-field cell.
    pub open spec fn in_field_spec(p: Position) -> bool {
        &&& 1000 <= p.x < GAME_AREA_WIDTH as int * 1000
        &&& p.x % 1000 == 0
        &&& 1000 <= p.y < GAME_AREA_HEIGHT as int * 1000
        &&& p.y % 1000 == 0
    }

    /// A fresh apple position: a uniformly random in-bounds cell.
    pub fn get_random_position() -> (p: Position)
        ensures
            Self::in_field_spec(p),
    {
        let x = random_in_range(1, GAME_AREA_WIDTH);
        let y = random_in_range(1, GAME_AREA_HEIGHT);
        proof {
            vstd::arithmetic::div_mod::lemma_mod_multiples_basic(x as int, 1000);
            vstd::arithmetic::div_mod::lemma_mod_multiples_basic(y as int, 1000);
        }
        Position { x: x as i64 * 1000, y: y as i64 * 1000 }
    }

    pub fn get_position(&self) -> (p: Position)
        ensures
            p == self.position_spec(),
    {
        self.position
    }
}

impl Update for Apple {
    open spec fn obj_inv(&self) -> bool {
        true
    }

    /// Time does not move the apple.
    fn update(&mut self, _elapsed_ms: u64)
        ensures
            final(self).position_spec() == old(self).position_spec(),
    {
    }
}

impl GameObject for Apple {
    type Item = SnakeGameSceneActions;

    open spec fn scene_action_allowed(&self, action: SnakeGameSceneActions) -> bool {
        true
    }

    /// Engine-level actions do not concern the apple.
    fn action(&mut self, _action: Action)
        ensures
            final(self).position_spec() == old(self).position_spec(),
    {
    }

    /// An eaten apple reappears on a fresh random in-bounds cell; other
    /// scene events leave it alone.
    fn scene_action(&mut self, action: SnakeGameSceneActions)
        ensures
            action == SnakeGameSceneActions::EatApple ==> Apple::in_field_spec(
                final(self).position_spec(),
            ),
            action != SnakeGameSceneActions::EatApple ==> final(self).position_spec() == old(
                self,
            ).position_spec(),
    {
        if let SnakeGameSceneActions::EatApple = action {
            self.position = Self::get_random_position();
        }
    }
}

impl Default for Apple {
    /// An apple already placed on a random in-bounds cell.
    fn default() -> (a: Apple)
        ensures
            Apple::in_field_spec(a.position_spec()),
    {
        Apple::new(Apple::get_random_position())
    }
}

} // verus!
