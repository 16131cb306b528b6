//! Characters: their classes, the builtin heroes, and the aggregate that
//! holds a character's health, inventory and stats together.

use vstd::prelude::*;
use crate::health::{Health, MAX_HEALTH};
use crate::inventory::{Inventory, INVENTORY_SIZE};
use crate::items::MetaData;
use crate::stats::Stats;
use crate::weapon::{Weapon, WeaponType};

verus! {

/// The classes a character can be of.
#[derive(PartialEq, Eq, Debug, Clone, Copy, Structural)]
pub enum CharacterClass {
    Warrior,
    Warlock,
    Vampire,
    Assassin,
}

/// What a warrior is called.
pub const WARRIOR_NAME: &'static str = "Warrior";

/// What a warlock is called.
pub const WARLOCK_NAME: &'static str = "Warlock";

/// What a vampire is called.
pub const VAMPIRE_NAME: &'static str = "Vampire";

/// What an assassin is called.
pub const ASSASSIN_NAME: &'static str = "Assassin";

impl Default for CharacterClass {
    /// A character is a warrior unless it says otherwise.
    fn default() -> (class: CharacterClass)
        ensures
            class == CharacterClass::Warrior,
    {
        CharacterClass::Warrior
    }
}

impl CharacterClass {
    /// The name of the class, as text.
    pub open spec fn name_text(&self) -> Seq<char> {
        match self {
            CharacterClass::Warrior => WARRIOR_NAME@,
            CharacterClass::Warlock => WARLOCK_NAME@,
            CharacterClass::Vampire => VAMPIRE_NAME@,
            CharacterClass::Assassin => ASSASSIN_NAME@,
        }
    }

    /// The name of the class.
    pub fn name(&self) -> (name: &'static str)
        ensures
            name@ == self.name_text(),
    {
        match self {
            CharacterClass::Warrior => WARRIOR_NAME,
            CharacterClass::Warlock => WARLOCK_NAME,
            CharacterClass::Vampire => VAMPIRE_NAME,
            CharacterClass::Assassin => ASSASSIN_NAME,
        }
    }
}

/// The heroes that come with the game.
#[derive(PartialEq, Eq, Debug, Clone, Copy, Structural)]
pub enum BuiltinCharacter {
    Tyr,
    Kain,
    Vamp,
    Susanoo,
}

/// What the hero Tyr is called.
pub const TYR_NAME: &'static str = "Tyr";

/// What the hero Kain is called.
pub const KAIN_NAME: &'static str = "Kain";

/// What the hero Vamp is called.
pub const VAMP_NAME: &'static str = "Vamp";

/// What the hero Susanoo is called.
pub const SUSANOO_NAME: &'static str = "Susanoo";

/// The lore of the hero Tyr.
pub const TYR_LORE: &'static str =
    "The most glittering of gods, Tyr, who,
                like the Vanir, is gifted with the gift of foresight,
                and top him off with a stylish headdress.";

/// The lore of the hero Kain.
pub const KAIN_LORE: &'static str =
    "Mother of origins, guardian of passages, generator of new life in flood waters, orgasm, birth waters, baptism.";

/// The lore of the hero Vamp.
pub const VAMP_LORE: &'static str =
    "Lie in wait inside the walls to hunt the strays.
                Disorient your foes senses before taking their life.";

/// The lore of the hero Susanoo.
pub const SUSANOO_LORE: &'static str =
    "I will create a worldly paradise in this land.A place of peace and prosperity. An ideal country for those who live in suffering.";

impl MetaData for BuiltinCharacter {
    open spec fn name_text(&self) -> Seq<char> {
        match self {
            BuiltinCharacter::Tyr => TYR_NAME@,
            BuiltinCharacter::Kain => KAIN_NAME@,
            BuiltinCharacter::Vamp => VAMP_NAME@,
            BuiltinCharacter::Susanoo => SUSANOO_NAME@,
        }
    }

    open spec fn description_text(&self) -> Seq<char> {
        match self {
            BuiltinCharacter::Tyr => TYR_LORE@,
            BuiltinCharacter::Kain => KAIN_LORE@,
            BuiltinCharacter::Vamp => VAMP_LORE@,
            BuiltinCharacter::Susanoo => SUSANOO_LORE@,
        }
    }

    fn name(&self) -> (name: &'static str) {
        match self {
            BuiltinCharacter::Tyr => TYR_NAME,
            BuiltinCharacter::Kain => KAIN_NAME,
            BuiltinCharacter::Vamp => VAMP_NAME,
            BuiltinCharacter::Susanoo => SUSANOO_NAME,
        }
    }

    /// Lore about the character's background.
    fn description(&self) -> (description: &'static str) {
        match self {
            BuiltinCharacter::Tyr => TYR_LORE,
            BuiltinCharacter::Kain => KAIN_LORE,
            BuiltinCharacter::Vamp => VAMP_LORE,
            BuiltinCharacter::Susanoo => SUSANOO_LORE,
        }
    }
}

/// A character as plain data: its class, the reading of its health bar, the
/// weapons it owns, how many weapons it has room for, and its stats.
pub struct CharacterModel {
    pub class: CharacterClass,
    pub health: nat,
    pub weapons: Seq<Weapon>,
    pub capacity: nat,
    pub stats: Stats,
}

impl CharacterModel {
    /// Whether this is a character as it starts out: in full health, with
    /// zeroed stats, and owning one starter weapon and nothing else.
    pub open spec fn is_fresh(self) -> bool {
        &&& self.health == MAX_HEALTH
        &&& self.capacity == INVENTORY_SIZE
        &&& self.stats == Stats::zeroed()
        &&& self.weapons.len() == 1
        &&& self.weapons[0]@.weapon_type == WeaponType::Bow
        &&& self.weapons[0].wf()
    }
}

/// What every character offers, whatever it is made of.
pub trait Char: Send + Sync + Sized {
    /// The character as plain data.
    spec fn model(&self) -> CharacterModel;

    /// The standard way to create a character: as it starts out.
    fn new() -> (character: Self)
        ensures
            character.model().is_fresh(),
    ;

    /// Builds a character from copies of the given components.
    fn build(inventory: &Inventory, stats: &Stats, health: &Health) -> (character: Self)
        ensures
            character.model().health == health@,
            character.model().weapons == inventory@,
            character.model().capacity == inventory.capacity(),
            character.model().stats == *stats,
    ;

    /// The character's inventory.
    fn inventory(&self) -> (inventory: &Inventory)
        ensures
            inventory@ == self.model().weapons,
            inventory.capacity() == self.model().capacity,
    ;

    /// The character's health bar.
    fn health(&self) -> (health: &Health)
        ensures
            health@ == self.model().health,
    ;

    /// The character's class.
    fn class(&self) -> (class: &CharacterClass)
        ensures
            *class == self.model().class,
    ;

    /// The character's stats.
    fn stats(&self) -> (stats: &Stats)
        ensures
            *stats == self.model().stats,
    ;

    /// Whether this character comes with the game. Unless a character says
    /// otherwise, it does not.
    fn is_builtin(&self) -> (builtin: bool)
        default_ensures
            !builtin,
    {
        false
    }
}

/// A character: one class, one health bar, one inventory and one stat block,
/// all of them its own.
#[derive(Debug)]
pub struct Character {
    class: CharacterClass,
    health: Health,
    inventory: Inventory,
    stats: Stats,
}

impl View for Character {
    type V = CharacterModel;

    closed spec fn view(&self) -> CharacterModel {
        CharacterModel {
            class: self.class,
            health: self.health@,
            weapons: self.inventory@,
            capacity: self.inventory.capacity(),
            stats: self.stats,
        }
    }
}

impl Clone for Character {
    fn clone(&self) -> (copy: Character)
        ensures
            copy@ == self@,
    {
        Character {
            class: self.class,
            health: self.health,
            inventory: self.inventory.clone(),
            stats: self.stats,
        }
    }
}

impl Character {
    /// Creates a character of the given class as it starts out: in full
    /// health, with zeroed stats, and with one randomly rolled starter weapon
    /// in its inventory.
    #[must_use]
    pub fn new(class: CharacterClass) -> (character: Character)
        ensures
            character@.class == class,
            character@.is_fresh(),
    {
        let mut inventory = Inventory::default();
        let starter = Weapon::default();
        let stored = inventory.put_weapon(&starter);
        assert(stored is Ok);
        assert(inventory@[0] == starter);
        Character { class, health: Health::default(), inventory, stats: Stats::default() }
    }

    /// Puts the given components together. Nothing is checked beyond what
    /// the components themselves guarantee.
    pub fn build(class: CharacterClass, health: Health, inventory: Inventory, stats: Stats) -> (character:
        Character)
        ensures
            character@ == (CharacterModel {
                class,
                health: health@,
                weapons: inventory@,
                capacity: inventory.capacity(),
                stats,
            }),
    {
        Character { class, health, inventory, stats }
    }

    /// The character's class.
    pub fn class(&self) -> (class: &CharacterClass)
        ensures
            *class == self@.class,
    {
        &self.class
    }

    /// The character's health bar.
    pub fn health(&self) -> (health: &Health)
        ensures
            health@ == self@.health,
    {
        &self.health
    }

    /// The character's inventory.
    pub fn inventory(&self) -> (inventory: &Inventory)
        ensures
            inventory@ == self@.weapons,
            inventory.capacity() == self@.capacity,
    {
        &self.inventory
    }

    /// The character's stats.
    pub fn stats(&self) -> (stats: &Stats)
        ensures
            *stats == self@.stats,
    {
        &self.stats
    }
}

} // verus!
