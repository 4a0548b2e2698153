//! Core logic of a media-player selection menu: discovering which running
//! player the user wants to control, normalizing the loosely-typed metadata
//! each player exposes, composing the display lines the menu shows, and
//! deciding the control action for the chosen player.
//!
//! Everything here works on plain values; the surrounding binary performs the
//! bus queries and runs the menu tool, feeding the results into these
//! functions.

pub mod display;
pub mod metadata;
pub mod orchestrator;
pub mod player;
