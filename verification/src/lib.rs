//! A small data model for game characters: a bounded health bar, a bounded
//! weapon inventory, randomly rolled weapons and the characters that own them.
//!
//! Every executable function carries a contract over a mathematical model of
//! the value it works on: a health bar is the number it shows, an inventory is
//! the sequence of weapons it holds.

pub mod builtins;
pub mod character;
pub mod error;
pub mod health;
pub mod inventory;
pub mod items;
pub mod stats;
pub mod weapon;
mod random;

pub use builtins::{Kain, Susanoo, Tyr, Vamp};
pub use character::{BuiltinCharacter, Char, Character, CharacterClass};
pub use error::ComponentError;
pub use health::{Health, RegenStep};
pub use inventory::Inventory;
pub use items::{Generator, Item, ItemRarity, ItemType, MetaData};
pub use stats::{Resistense, Stats};
pub use weapon::{Weapon, WeaponAmmoType, WeaponType};
