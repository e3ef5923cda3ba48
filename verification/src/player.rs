use vstd::prelude::*;

verus! {

/// A 2D point in world space, in millionths of a pixel per axis.
///
/// Game logic only ever moves the vertical component; the horizontal one is
/// carried through unchanged.
#[derive(Clone, Copy, Debug, PartialEq, Eq, Structural)]
pub struct Vec2i {
    pub x: i64,
    pub y: i64,
}

/// The one piece of per-player simulation state beside the position: the
/// vertical velocity, in thousandths of a pixel per second.
#[derive(Clone, Copy, Debug, PartialEq, Eq, Structural)]
pub struct Player {
    pub y_vel: i64,
}

/// Coarse session phase. The tag is declared by the game but gates nothing:
/// every per-tick rule runs regardless of it, so it carries no transition
/// logic here either.
#[derive(Clone, Copy, Debug, PartialEq, Eq, Hash, Structural)]
pub enum GameState {
    Menu,
    Game,
    GameOver,
}

impl Default for GameState {
    /// A fresh session starts in the menu.
    fn default() -> (r: Self)
        ensures
            r == GameState::Menu,
    {
        GameState::Menu
    }
}

} // verus!
