//! The weaver: attribute profiles and contest resolution.

pub mod contests;
pub mod properties;
