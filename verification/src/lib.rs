//! Screen-flow logic of a small platformer: which screen is shown, when the
//! crab appears, and what the engine is asked to do on each frame.
//!
//! The library never touches a window, a socket or an entity store. The
//! host turns what happens into an [`controller::Input`], hands it to the
//! [`controller::ModeController`], and carries out the [`scene::Command`]s
//! that come back.
//!
//! - [`mode`]: the shared mode flag.
//! - [`timer`]: the one-shot countdown before the crab appears.
//! - [`scene`]: sizes, placements and the requests to the engine.
//! - [`input`]: window events, reduced to what the game reacts to.
//! - [`frames`]: menu, single-player, multiplayer and lose screen.
//! - [`controller`]: the state stack that the frames live on.
//! - [`laws`]: what holds of every game, whatever the inputs.

pub mod controller;
pub mod frames;
pub mod input;
pub mod laws;
pub mod mode;
pub mod scene;
pub mod timer;
