//! The heroes that come with the game. Each is a character of a fixed class
//! that knows which builtin hero it is.

use vstd::prelude::*;
use vstd::std_specs::convert::FromSpecImpl;
use crate::character::{BuiltinCharacter, Char, Character, CharacterClass, CharacterModel};
use crate::health::Health;
use crate::inventory::Inventory;
use crate::stats::Stats;

verus! {

/// The builtin hero Vamp, a vampire.
#[derive(Debug)]
pub struct Vamp {
    base: Character,
}

impl Clone for Vamp {
    fn clone(&self) -> (copy: Vamp)
        ensures
            copy.model() == self.model(),
    {
        proof {
            use_type_invariant(self);
        }
        Vamp { base: self.base.clone() }
    }
}

impl From<Vamp> for BuiltinCharacter {
    fn from(hero: Vamp) -> (builtin: BuiltinCharacter) {
        BuiltinCharacter::Vamp
    }
}

impl FromSpecImpl<Vamp> for BuiltinCharacter {
    open spec fn obeys_from_spec() -> bool {
        true
    }

    open spec fn from_spec(hero: Vamp) -> BuiltinCharacter {
        BuiltinCharacter::Vamp
    }
}

impl Char for Vamp {
    closed spec fn model(&self) -> CharacterModel {
        self.base@
    }

    fn new() -> (character: Vamp)
        ensures
            character.model().class == CharacterClass::Vampire,
    {
        Vamp { base: Character::new(CharacterClass::Vampire) }
    }

    fn build(inventory: &Inventory, stats: &Stats, health: &Health) -> (character: Vamp)
        ensures
            character.model().class == CharacterClass::Vampire,
    {
        Vamp {
            base: Character::build(CharacterClass::Vampire, *health, inventory.clone(), *stats),
        }
    }

    fn class(&self) -> (class: &CharacterClass)
        ensures
            *class == CharacterClass::Vampire,
    {
        proof {
            use_type_invariant(self);
        }
        self.base.class()
    }

    fn stats(&self) -> (stats: &Stats) {
        self.base.stats()
    }

    fn is_builtin(&self) -> (builtin: bool)
        ensures
            builtin,
    {
        true
    }

    fn inventory(&self) -> (inventory: &Inventory) {
        self.base.inventory()
    }

    fn health(&self) -> (health: &Health) {
        self.base.health()
    }
}

impl Vamp {
    /// Vamp is always a vampire.
    #[verifier::type_invariant]
    pub closed spec fn wf(self) -> bool {
        self.base@.class == CharacterClass::Vampire
    }
}

/// The builtin hero Kain, a warlock.
#[derive(Debug)]
pub struct Kain {
    base: Character,
}

impl Clone for Kain {
    fn clone(&self) -> (copy: Kain)
        ensures
            copy.model() == self.model(),
    {
        proof {
            use_type_invariant(self);
        }
        Kain { base: self.base.clone() }
    }
}

impl From<Kain> for BuiltinCharacter {
    fn from(hero: Kain) -> (builtin: BuiltinCharacter) {
        BuiltinCharacter::Kain
    }
}

impl FromSpecImpl<Kain> for BuiltinCharacter {
    open spec fn obeys_from_spec() -> bool {
        true
    }

    open spec fn from_spec(hero: Kain) -> BuiltinCharacter {
        BuiltinCharacter::Kain
    }
}

impl Char for Kain {
    closed spec fn model(&self) -> CharacterModel {
        self.base@
    }

    fn new() -> (character: Kain)
        ensures
            character.model().class == CharacterClass::Warlock,
    {
        Kain { base: Character::new(CharacterClass::Warlock) }
    }

    fn build(inventory: &Inventory, stats: &Stats, health: &Health) -> (character: Kain)
        ensures
            character.model().class == CharacterClass::Warlock,
    {
        Kain {
            base: Character::build(CharacterClass::Warlock, *health, inventory.clone(), *stats),
        }
    }

    fn class(&self) -> (class: &CharacterClass)
        ensures
            *class == CharacterClass::Warlock,
    {
        proof {
            use_type_invariant(self);
        }
        self.base.class()
    }

    fn stats(&self) -> (stats: &Stats) {
        self.base.stats()
    }

    fn is_builtin(&self) -> (builtin: bool)
        ensures
            builtin,
    {
        true
    }

    fn inventory(&self) -> (inventory: &Inventory) {
        self.base.inventory()
    }

    fn health(&self) -> (health: &Health) {
        self.base.health()
    }
}

impl Kain {
    /// Kain is always a warlock.
    #[verifier::type_invariant]
    pub closed spec fn wf(self) -> bool {
        self.base@.class == CharacterClass::Warlock
    }
}

/// The builtin hero Susanoo, an assassin.
#[derive(Debug)]
pub struct Susanoo {
    base: Character,
}

impl Clone for Susanoo {
    fn clone(&self) -> (copy: Susanoo)
        ensures
            copy.model() == self.model(),
    {
        proof {
            use_type_invariant(self);
        }
        Susanoo { base: self.base.clone() }
    }
}

impl From<Susanoo> for BuiltinCharacter {
    fn from(hero: Susanoo) -> (builtin: BuiltinCharacter) {
        BuiltinCharacter::Susanoo
    }
}

impl FromSpecImpl<Susanoo> for BuiltinCharacter {
    open spec fn obeys_from_spec() -> bool {
        true
    }

    open spec fn from_spec(hero: Susanoo) -> BuiltinCharacter {
        BuiltinCharacter::Susanoo
    }
}

impl Char for Susanoo {
    closed spec fn model(&self) -> CharacterModel {
        self.base@
    }

    fn new() -> (character: Susanoo)
        ensures
            character.model().class == CharacterClass::Assassin,
    {
        Susanoo { base: Character::new(CharacterClass::Assassin) }
    }

    fn build(inventory: &Inventory, stats: &Stats, health: &Health) -> (character: Susanoo)
        ensures
            character.model().class == CharacterClass::Assassin,
    {
        Susanoo {
            base: Character::build(CharacterClass::Assassin, *health, inventory.clone(), *stats),
        }
    }

    fn class(&self) -> (class: &CharacterClass)
        ensures
            *class == CharacterClass::Assassin,
    {
        proof {
            use_type_invariant(self);
        }
        self.base.class()
    }

    fn stats(&self) -> (stats: &Stats) {
        self.base.stats()
    }

    fn is_builtin(&self) -> (builtin: bool)
        ensures
            builtin,
    {
        true
    }

    fn inventory(&self) -> (inventory: &Inventory) {
        self.base.inventory()
    }

    fn health(&self) -> (health: &Health) {
        self.base.health()
    }
}

impl Susanoo {
    /// Susanoo is always an assassin.
    #[verifier::type_invariant]
    pub closed spec fn wf(self) -> bool {
        self.base@.class == CharacterClass::Assassin
    }
}

/// The builtin hero Tyr, a warrior.
#[derive(Debug)]
pub struct Tyr {
    base: Character,
}

impl Clone for Tyr {
    fn clone(&self) -> (copy: Tyr)
        ensures
            copy.model() == self.model(),
    {
        proof {
            use_type_invariant(self);
        }
        Tyr { base: self.base.clone() }
    }
}

impl From<Tyr> for BuiltinCharacter {
    fn from(hero: Tyr) -> (builtin: BuiltinCharacter) {
        BuiltinCharacter::Tyr
    }
}

impl FromSpecImpl<Tyr> for BuiltinCharacter {
    open spec fn obeys_from_spec() -> bool {
        true
    }

    open spec fn from_spec(hero: Tyr) -> BuiltinCharacter {
        BuiltinCharacter::Tyr
    }
}

impl Char for Tyr {
    closed spec fn model(&self) -> CharacterModel {
        self.base@
    }

    fn new() -> (character: Tyr)
        ensures
            character.model().class == CharacterClass::Warrior,
    {
        Tyr { base: Character::new(CharacterClass::Warrior) }
    }

    fn build(inventory: &Inventory, stats: &Stats, health: &Health) -> (character: Tyr)
        ensures
            character.model().class == CharacterClass::Warrior,
    {
        Tyr {
            base: Character::build(CharacterClass::Warrior, *health, inventory.clone(), *stats),
        }
    }

    fn class(&self) -> (class: &CharacterClass)
        ensures
            *class == CharacterClass::Warrior,
    {
        proof {
            use_type_invariant(self);
        }
        self.base.class()
    }

    fn stats(&self) -> (stats: &Stats) {
        self.base.stats()
    }

    fn is_builtin(&self) -> (builtin: bool)
        ensures
            builtin,
    {
        true
    }

    fn inventory(&self) -> (inventory: &Inventory) {
        self.base.inventory()
    }

    fn health(&self) -> (health: &Health) {
        self.base.health()
    }
}

impl Tyr {
    /// Tyr is always a warrior.
    #[verifier::type_invariant]
    pub closed spec fn wf(self) -> bool {
        self.base@.class == CharacterClass::Warrior
    }
}

} // verus!
