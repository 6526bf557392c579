//! Vitalis: the simulation core of a turn-based roguelike.
//!
//! The library holds the attribute profiles and opposed-roll contests of the
//! weaver, the entity store (the tapestry), and the modal input machine that
//! turns key events into commands.

pub mod foundation;
pub mod tapestry;
pub mod threads;
pub mod weaver;
pub mod patterns;
