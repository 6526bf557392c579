//! Threads: the entities of the world (the player, NPCs and regions).

use crate::foundation::Position;
use crate::weaver::properties::ThreadProperties;
use vstd::prelude::*;

verus! {

/// Identity of a thread, allocated by a tapestry.
#[derive(Debug, Clone, Copy, PartialEq, Eq, Hash, Structural)]
pub struct ThreadId(pub u64);

/// What a thread is, with the text that goes with it.
#[derive(Debug, Clone, PartialEq, Eq)]
pub enum ThreadKind {
    Player { name: String },
    Region { description: String },
    Npc { name: String },
}

/// An entity of the world. `S` is its temporal state vector, which the core
/// carries but does not read; a thread without a position cannot be found on
/// the grid.
#[derive(Debug, Clone)]
pub struct Thread<S> {
    pub id: ThreadId,
    pub kind: ThreadKind,
    pub properties: ThreadProperties,
    pub states: S,
    pub position: Option<Position>,
}

} // verus!
