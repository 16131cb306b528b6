//! The numbers that describe what a character is capable of. They are plain
//! data: nothing in this crate derives behaviour from them.

use vstd::prelude::*;

verus! {

/// The stat block of a character. Every stat starts at zero.
#[derive(Clone, Copy, PartialEq, PartialOrd, Debug)]
pub struct Stats {
    pub mp5: u32,
    pub hp5: u32,
    pub health: u32,
    pub evasion: u32,
    pub movement_speed: u32,
    pub attack_speed: usize,
}

impl Stats {
    /// The stat block with every stat at zero.
    pub open spec fn zeroed() -> Stats {
        Stats { mp5: 0, hp5: 0, health: 0, evasion: 0, movement_speed: 0, attack_speed: 0 }
    }
}

impl Default for Stats {
    fn default() -> (stats: Stats)
        ensures
            stats == Stats::zeroed(),
    {
        Stats { mp5: 0, hp5: 0, health: 0, evasion: 0, movement_speed: 0, attack_speed: 0 }
    }
}

/// How well a character withstands each kind of damage. Every resistance
/// starts at zero.
#[derive(Clone, Copy, PartialEq, PartialOrd, Debug)]
pub struct Resistense {
    toxcin: u32,
    elemental: u32,
    void: u32,
    radiant: u32,
}

/// A set of resistances as plain data.
pub struct ResistenseModel {
    pub toxcin: u32,
    pub elemental: u32,
    pub void: u32,
    pub radiant: u32,
}

impl View for Resistense {
    type V = ResistenseModel;

    closed spec fn view(&self) -> ResistenseModel {
        ResistenseModel {
            toxcin: self.toxcin,
            elemental: self.elemental,
            void: self.void,
            radiant: self.radiant,
        }
    }
}

impl Default for Resistense {
    fn default() -> (resistense: Resistense)
        ensures
            resistense@ == (ResistenseModel { toxcin: 0, elemental: 0, void: 0, radiant: 0 }),
    {
        Resistense { toxcin: 0, elemental: 0, void: 0, radiant: 0 }
    }
}

impl Resistense {
    /// The resistance to toxic damage.
    pub fn toxcin(&self) -> (toxcin: u32)
        ensures
            toxcin == self@.toxcin,
    {
        self.toxcin
    }

    /// The resistance to elemental damage.
    pub fn elemental(&self) -> (elemental: u32)
        ensures
            elemental == self@.elemental,
    {
        self.elemental
    }

    /// The resistance to void damage.
    pub fn void(&self) -> (void: u32)
        ensures
            void == self@.void,
    {
        self.void
    }

    /// The resistance to radiant damage.
    pub fn radiant(&self) -> (radiant: u32)
        ensures
            radiant == self@.radiant,
    {
        self.radiant
    }
}

} // verus!
