//! Patterns: the vi-style input layer that reveals the weaving to the player.

pub mod commands;
pub mod modes;
pub mod session;
pub mod view;
