//! Navigation and playback control for a terminal playlist player.
//!
//! The crate holds the decisions of the player: how keys become commands,
//! how a cursor moves through a menu, how the two menu levels hand over to
//! each other and to playback, and how a playback session picks its next
//! track. Terminal and process handling stay with the application.

pub mod browse;
pub mod config;
pub mod cursor;
pub mod input;
pub mod library;
pub mod menu;
pub mod platform;
pub mod playback;
pub mod player;
pub mod text;
pub mod transport;
