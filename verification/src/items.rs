//! What every item has in common: a rarity, a kind, a name, and the traits
//! through which items describe themselves.

use vstd::prelude::*;
use crate::error::ComponentError;
use crate::random::random_in_range;

verus! {

/// How rare an item is.
#[derive(PartialEq, Eq, Clone, Copy, Debug, Structural)]
pub enum ItemRarity {
    Rare,
    Legendry,
    Exotic,
}

/// The rarity that a roll stands for: zero is `Rare`, one is `Legendry`, and
/// every other roll is `Exotic`.
pub open spec fn rarity_of_roll(roll: u32) -> ItemRarity {
    if roll == 0 {
        ItemRarity::Rare
    } else if roll == 1 {
        ItemRarity::Legendry
    } else {
        ItemRarity::Exotic
    }
}

impl ItemRarity {
    /// The largest roll that [`ItemRarity::random`] draws.
    pub const TOP_ROLL: u32 = 2;

    /// The rarity that `roll` stands for.
    pub fn from_roll(roll: u32) -> (rarity: ItemRarity)
        ensures
            rarity == rarity_of_roll(roll),
    {
        match roll {
            0 => ItemRarity::Rare,
            1 => ItemRarity::Legendry,
            _ => ItemRarity::Exotic,
        }
    }

    /// A rarity drawn at random: the one that a roll between zero and
    /// [`ItemRarity::TOP_ROLL`] stands for.
    pub fn random() -> (rarity: ItemRarity)
        ensures
            exists|roll: u32| roll <= Self::TOP_ROLL && rarity == #[trigger] rarity_of_roll(roll),
    {
        let roll: u32 = random_in_range(0, Self::TOP_ROLL);
        ItemRarity::from_roll(roll)
    }
}

/// The kinds of item there are.
#[derive(PartialEq, Eq, Clone, Copy, Debug, Structural)]
pub enum ItemType {
    Weapon,
    Container,
    Consumable,
    Armor,
}

/// Types that have a name and a description.
pub trait MetaData {
    /// The name, as text.
    spec fn name_text(&self) -> Seq<char>;

    /// The description, as text.
    spec fn description_text(&self) -> Seq<char>;

    /// The name.
    fn name(&self) -> (name: &'static str)
        ensures
            name@ == self.name_text(),
    ;

    /// The description.
    fn description(&self) -> (description: &'static str)
        ensures
            description@ == self.description_text(),
    ;
}

/// The texts of `names`, in order.
pub open spec fn texts_of(names: Seq<&'static str>) -> Seq<Seq<char>> {
    names.map_values(|name: &'static str| name@)
}

/// Turns what was picked from a name table into the name to carry: a pick is
/// the name, and no pick, which an empty table gives, is a
/// `ConfigurationError`.
pub fn name_from_pick(picked: Option<&'static str>) -> (name: Result<
    &'static str,
    ComponentError,
>)
    ensures
        match picked {
            Some(p) => name matches Ok(n) && n@ == p@,
            None => name == Err::<&'static str, ComponentError>(
                ComponentError::ConfigurationError,
            ),
        },
{
    match picked {
        Some(p) => Ok(p),
        None => Err(ComponentError::ConfigurationError),
    }
}

/// Types that can name an item of their kind.
pub trait Generator {
    /// The texts of the names that an item of this kind may carry.
    spec fn name_table(&self) -> Seq<Seq<char>>;

    /// The names that an item of this kind may carry.
    fn generate_name(&self) -> (names: Vec<&'static str>)
        ensures
            texts_of(names@) == self.name_table(),
    ;

    /// One of the names of [`Generator::generate_name`], picked at random.
    ///
    /// Only a kind without any name has none to give, and answers with
    /// `ConfigurationError`.
    fn auto_name(&self) -> (name: Result<&'static str, ComponentError>)
        ensures
            match name {
                Ok(n) => self.name_table().contains(n@),
                Err(e) => e == ComponentError::ConfigurationError && self.name_table().len() == 0,
            },
    ;
}

/// What every item can tell of itself.
pub trait Item {
    /// The name of the item.
    fn name(&self) -> &'static str;

    /// The identifier of the item.
    fn id(&self) -> u8;

    /// The kind of the item.
    fn item_type(&self) -> ItemType;

    /// How rare the item is.
    fn rarity(&self) -> ItemRarity;
}

} // verus!
