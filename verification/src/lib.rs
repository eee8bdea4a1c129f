//! Command and overlay logic of a small game-client extension.
//!
//! The game client (the host) loads the extension and calls it back on a
//! fixed set of events: load, game start, every tick, every frame, input,
//! console commands, unload. The extension answers three console commands and
//! can draw a small overlay with the player's numbers.
//!
//! Every callback here is a function from the extension's state and the
//! values read from the host to the next state and the list of host calls to
//! make. The caller owns the state, reads the host and makes the calls; the
//! functions themselves touch nothing outside their arguments, so what they do
//! is stated in their contracts and proved.
//!
//! - [`boundary`]: C strings from the host, terminated buffers for the host.
//! - [`color`]: packed 5-5-5 colours.
//! - [`text`]: decimal numbers as text.
//! - [`host`]: the values read from the host and the calls made to it.
//! - [`state`]: the extension's own state.
//! - [`command`]: the command dispatcher.
//! - [`overlay`]: the overlay renderer.
//! - [`callbacks`]: the entry points, one for each event.

pub mod boundary;
pub mod callbacks;
pub mod color;
pub mod command;
pub mod host;
pub mod overlay;
pub mod state;
pub mod text;

pub use crate::callbacks::{
    amod_client_cmd, amod_exit, amod_frame, amod_gamestart, amod_init, amod_keydown, amod_keyup,
    amod_mouse_click, amod_mouse_move, amod_tick, amod_version,
};
pub use crate::color::irgb;
