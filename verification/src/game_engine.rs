use vstd::prelude::*;

verus! {

pub const TERMINAL_WIDTH: u16 = 60;

pub const TERMINAL_HEIGHT: u16 = 30;

pub const TITLE_HEIGHT: u16 = 3;

pub const HUD_HEIGHT: u16 = 6;

pub const GAME_WIDTH: u16 = TERMINAL_WIDTH;

pub const GAME_HEIGHT: u16 = TERMINAL_HEIGHT - HUD_HEIGHT - TITLE_HEIGHT;

/// The playable interior of the game square, inside its borders.
pub const GAME_AREA_WIDTH: u16 = GAME_WIDTH - 2;

pub const GAME_AREA_HEIGHT: u16 = GAME_HEIGHT - 2;

/// The wall-clock period of one logic tick, in milliseconds.
pub const LOGIC_TICK_MILLIS: u128 = 100;

/// The minimum interval between two repaints: a twelfth of a second, in
/// microseconds.
pub const FRAME_INTERVAL_MICROS: u128 = 83_333;

/// An engine-level input event, as the input worker hands it on.
#[derive(Clone, Copy, PartialEq, Eq, Structural, Debug)]
pub enum Action {
    MoveUp,
    MoveDown,
    MoveRight,
    MoveLeft,
    Command(char),
    Quit,
}

/// One message on the engine's channels.
#[derive(Clone, Copy, PartialEq, Eq, Structural, Debug)]
pub struct GameData {
    pub action: Action,
}

/// A key event as the input worker reads it, reduced to what the engine
/// distinguishes.
#[derive(Clone, Copy, PartialEq, Eq, Structural, Debug)]
pub enum KeyEvent {
    Up,
    Down,
    Left,
    Right,
    Esc,
    Char(char),
    Other,
}

/// The action a key event maps to; `None` for events the engine skips.
pub open spec fn action_for_key_spec(key: KeyEvent) -> Option<Action> {
    match key {
        KeyEvent::Esc => Some(Action::Quit),
        KeyEvent::Up => Some(Action::MoveUp),
        KeyEvent::Down => Some(Action::MoveDown),
        KeyEvent::Left => Some(Action::MoveLeft),
        KeyEvent::Right => Some(Action::MoveRight),
        KeyEvent::Char(c) => Some(Action::Command(c)),
        KeyEvent::Other => None,
    }
}

/// Translate one raw key event into the action the input worker forwards,
/// or nothing for events that are silently skipped.
pub fn action_for_key(key: KeyEvent) -> (r: Option<Action>)
    ensures
        r == action_for_key_spec(key),
{
    match key {
        KeyEvent::Esc => Some(Action::Quit),
        KeyEvent::Up => Some(Action::MoveUp),
        KeyEvent::Down => Some(Action::MoveDown),
        KeyEvent::Left => Some(Action::MoveLeft),
        KeyEvent::Right => Some(Action::MoveRight),
        KeyEvent::Char(c) => Some(Action::Command(c)),
        KeyEvent::Other => None,
    }
}

/// Whether an action ends the loops that watch for it.
pub fn is_quit(action: Action) -> (r: bool)
    ensures
        r == (action == Action::Quit),
{
    match action {
        Action::Quit => true,
        _ => false,
    }
}

/// Whether enough wall-clock time has passed for the next logic tick.
pub fn logic_tick_due(elapsed_ms: u128) -> (r: bool)
    ensures
        r == (elapsed_ms > LOGIC_TICK_MILLIS),
{
    elapsed_ms > LOGIC_TICK_MILLIS
}

/// Whether the repaint throttle allows marking the screen dirty again.
pub fn render_refresh_due(since_repaint_micros: u128) -> (r: bool)
    ensures
        r == (since_repaint_micros > FRAME_INTERVAL_MICROS),
{
    since_repaint_micros > FRAME_INTERVAL_MICROS
}

/// Anything the simulation worker ticks once per logic interval.
pub trait Update {
    /// The well-formedness every tick preserves.
    spec fn obj_inv(&self) -> bool;

    fn update(&mut self, elapsed_ms: u64)
        requires
            old(self).obj_inv(),
        ensures
            final(self).obj_inv(),
    ;
}

/// A registered entity: ticked, steered by engine actions and notified of
/// scene-specific ones.
pub trait GameObject: Update {
    type Item;

    /// When a scene action may be delivered to this object.
    spec fn scene_action_allowed(&self, action: Self::Item) -> bool;

    fn action(&mut self, action: Action)
        requires
            old(self).obj_inv(),
        ensures
            final(self).obj_inv(),
    ;

    fn scene_action(&mut self, action: Self::Item)
        requires
            old(self).obj_inv(),
            old(self).scene_action_allowed(action),
        ensures
            final(self).obj_inv(),
    ;
}

} // verus!
