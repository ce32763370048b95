//! The shared flag that says which high-level screen is authoritative.

use vstd::prelude::*;

verus! {

/// Which high-level screen currently owns the game.
#[derive(Clone, Copy, Debug, PartialEq, Eq, Structural)]
pub enum CurrentState {
    Menu,
    Gameplay,
    Lose,
}

impl Default for CurrentState {
    /// The game opens on the menu.
    fn default() -> (mode: Self)
        ensures
            mode == CurrentState::Menu,
    {
        CurrentState::Menu
    }
}

/// The one shared resource of the game: the current mode.
#[derive(Clone, Copy, Debug, PartialEq, Eq, Structural)]
pub struct Game {
    pub current_state: CurrentState,
}

impl Default for Game {
    /// A new game starts in `CurrentState::Menu`.
    fn default() -> (game: Self)
        ensures
            game.current_state == CurrentState::Menu,
    {
        Game { current_state: CurrentState::default() }
    }
}

} // verus!
