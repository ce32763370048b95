//! What the game reads from the window's events.

use vstd::prelude::*;

verus! {

/// The keys the game tells apart.
#[derive(Clone, Copy, Debug, PartialEq, Eq, Structural)]
pub enum Key {
    Escape,
    Key1,
    Key2,
    /// Any other key.
    Other,
}

/// One event, reduced to what the game reacts to.
#[derive(Clone, Copy, Debug, PartialEq, Eq, Structural)]
pub enum InputEvent {
    /// The window was asked to close.
    CloseRequested,
    /// A key went down.
    KeyDown(Key),
    /// Anything else.
    Other,
}

impl InputEvent {
    /// Whether the event asks the application to end: a request to close
    /// the window, or the escape key going down.
    pub open spec fn asks_exit(self) -> bool {
        self == InputEvent::CloseRequested || self == InputEvent::KeyDown(Key::Escape)
    }

    /// Whether the event asks the application to end.
    pub fn is_exit(self) -> (exit: bool)
        ensures
            exit == self.asks_exit(),
    {
        match self {
            InputEvent::CloseRequested => true,
            InputEvent::KeyDown(Key::Escape) => true,
            _ => false,
        }
    }
}

} // verus!
