//! The ten-attribute profile that every thread carries.

use vstd::prelude::*;

verus! {

/// Selector for one attribute of a profile.
#[derive(Debug, Clone, Copy, PartialEq, Eq, Structural)]
pub enum Stat {
    // Physical
    Strength,
    Dexterity,
    Constitution,
    // Mental
    Intelligence,
    Wisdom,
    Charisma,
    // Social
    Connections,
    Resources,
    Reputation,
    // Mystical
    Luck,
}

/// The attribute profile shared by all threads; each value is conceptually
/// in 0..=20.
#[derive(Debug, Clone, Copy, PartialEq, Eq, Structural)]
pub struct ThreadProperties {
    pub strength: u8,
    pub dexterity: u8,
    pub constitution: u8,
    pub intelligence: u8,
    pub wisdom: u8,
    pub charisma: u8,
    pub connections: u8,
    pub resources: u8,
    pub reputation: u8,
    pub luck: u8,
}

/// The value every attribute of a default profile holds.
pub const DEFAULT_STAT: u8 = 10;

impl ThreadProperties {
    /// The attribute that `stat` selects.
    pub open spec fn stat(self, stat: Stat) -> u8 {
        match stat {
            Stat::Strength => self.strength,
            Stat::Dexterity => self.dexterity,
            Stat::Constitution => self.constitution,
            Stat::Intelligence => self.intelligence,
            Stat::Wisdom => self.wisdom,
            Stat::Charisma => self.charisma,
            Stat::Connections => self.connections,
            Stat::Resources => self.resources,
            Stat::Reputation => self.reputation,
            Stat::Luck => self.luck,
        }
    }

    /// A profile with every attribute set to `base`.
    pub fn new(base: u8) -> (r: Self)
        ensures
            forall|s: Stat| #[trigger] r.stat(s) == base,
    {
        ThreadProperties {
            strength: base,
            dexterity: base,
            constitution: base,
            intelligence: base,
            wisdom: base,
            charisma: base,
            connections: base,
            resources: base,
            reputation: base,
            luck: base,
        }
    }

    /// Reads the attribute that `stat` selects.
    pub fn get_stat(&self, stat: Stat) -> (r: u8)
        ensures
            r == self.stat(stat),
    {
        match stat {
            Stat::Strength => self.strength,
            Stat::Dexterity => self.dexterity,
            Stat::Constitution => self.constitution,
            Stat::Intelligence => self.intelligence,
            Stat::Wisdom => self.wisdom,
            Stat::Charisma => self.charisma,
            Stat::Connections => self.connections,
            Stat::Resources => self.resources,
            Stat::Reputation => self.reputation,
            Stat::Luck => self.luck,
        }
    }
}

impl Default for ThreadProperties {
    fn default() -> (r: Self)
        ensures
            forall|s: Stat| #[trigger] r.stat(s) == DEFAULT_STAT,
    {
        Self::new(DEFAULT_STAT)
    }
}

} // verus!
