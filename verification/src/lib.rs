//! Verified core of a dinput8 proxy that patches the video settings menu
//! and the start-up sequence of the game, plus the rules that turn the
//! game's symbol tables into binding declarations.

pub mod text;
pub mod bindings;
pub mod startup;
pub mod hooks;
pub mod tables;
pub mod wrappers;
