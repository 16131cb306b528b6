//! Weapons: their types, the names each type may carry, and how a weapon is
//! rolled.

use vstd::prelude::*;
use vstd::slice::slice_to_vec;
use crate::error::ComponentError;
use crate::items::{
    name_from_pick, rarity_of_roll, texts_of, Generator, Item, ItemRarity, ItemType, MetaData,
};
use crate::random::{choose_name, random_byte};

verus! {

/// The kind of damage that a weapon's ammunition deals.
///
/// - `Toxic` damages enemies over time.
/// - `Radiant` can heal allies.
/// - `Void` consumes the enemy's health and weakens them for a while.
/// - `Elemental` deals fire, ice or lightning damage.
#[derive(PartialEq, Eq, Clone, Copy, Debug, Structural)]
pub enum WeaponAmmoType {
    Toxic,
    Radiant,
    Void,
    Elemental,
}

/// The types of weapon. Each type has its own table of names, from which a
/// weapon of that type takes its name.
#[derive(PartialEq, Eq, Clone, Copy, Debug, Structural)]
pub enum WeaponType {
    Mace,
    Bow,
    Rod,
    Claw,
    Daggers,
}

/// What a mace is called.
pub const MACE_NAME: &'static str = "Mace";

/// What a bow is called.
pub const BOW_NAME: &'static str = "Bow";

/// What a rod is called.
pub const ROD_NAME: &'static str = "Rod";

/// What a claw is called.
pub const CLAW_NAME: &'static str = "Claw";

/// What a pair of daggers is called.
pub const DAGGERS_NAME: &'static str = "Daggers";

/// What a mace is good for.
pub const MACE_DESCRIPTION: &'static str =
    "A one handed heavy weapon that requires strength. Hits with this weapon provides a chance to burn the enemy.";

/// What a bow is good for.
pub const BOW_DESCRIPTION: &'static str =
    "A Standard primary bow that all players start with. Hits with this weapon deals bonus True damage and a chance to freeze them.";

/// What a rod is good for.
pub const ROD_DESCRIPTION: &'static str =
    "A high velocity, Ranged, Magical weapon that can stun enemies on hits.";

/// What a claw is good for.
pub const CLAW_DESCRIPTION: &'static str =
    "An powerful lethal weapon that bleedes enemies every 3 successful hits";

/// What a pair of daggers is good for.
pub const DAGGERS_DESCRIPTION: &'static str =
    "Slash through enemies quickly. Rapid kills provides a chance to toxin enemies.";

/// The names that a mace may carry.
pub const MACE_NAMES: [&'static str; 3] = ["Threaded Needle", "Jotunn'a Vigor", "Hydras"];

/// The names that a bow may carry.
pub const BOW_NAMES: [&'static str; 3] = ["Scream", "Sorrowbane", "Death's whisper"];

/// The names that a rod may carry.
pub const ROD_NAMES: [&'static str; 4] = ["Underlight Angler", "Bancrofts", "Arondight", "Hope"];

/// The names that a claw may carry.
pub const CLAW_NAMES: [&'static str; 3] = ["Thnuderlord", "Throns", "Divine Ruin"];

/// The names that a pair of daggers may carry.
pub const DAGGERS_NAMES: [&'static str; 4] = [
    "Katana",
    "Wind Deamon",
    "Serrated Edge",
    "Soul Eater",
];

impl Default for WeaponType {
    /// The starter weapon is a bow.
    fn default() -> (weapon_type: WeaponType)
        ensures
            weapon_type == WeaponType::Bow,
    {
        WeaponType::Bow
    }
}

impl MetaData for WeaponType {
    open spec fn name_text(&self) -> Seq<char> {
        match self {
            WeaponType::Mace => MACE_NAME@,
            WeaponType::Bow => BOW_NAME@,
            WeaponType::Rod => ROD_NAME@,
            WeaponType::Claw => CLAW_NAME@,
            WeaponType::Daggers => DAGGERS_NAME@,
        }
    }

    open spec fn description_text(&self) -> Seq<char> {
        match self {
            WeaponType::Mace => MACE_DESCRIPTION@,
            WeaponType::Bow => BOW_DESCRIPTION@,
            WeaponType::Rod => ROD_DESCRIPTION@,
            WeaponType::Claw => CLAW_DESCRIPTION@,
            WeaponType::Daggers => DAGGERS_DESCRIPTION@,
        }
    }

    fn name(&self) -> (name: &'static str) {
        match self {
            WeaponType::Mace => MACE_NAME,
            WeaponType::Bow => BOW_NAME,
            WeaponType::Rod => ROD_NAME,
            WeaponType::Claw => CLAW_NAME,
            WeaponType::Daggers => DAGGERS_NAME,
        }
    }

    fn description(&self) -> (description: &'static str) {
        match self {
            WeaponType::Mace => MACE_DESCRIPTION,
            WeaponType::Bow => BOW_DESCRIPTION,
            WeaponType::Rod => ROD_DESCRIPTION,
            WeaponType::Claw => CLAW_DESCRIPTION,
            WeaponType::Daggers => DAGGERS_DESCRIPTION,
        }
    }
}

impl Generator for WeaponType {
    open spec fn name_table(&self) -> Seq<Seq<char>> {
        match self {
            WeaponType::Mace => texts_of(MACE_NAMES@),
            WeaponType::Bow => texts_of(BOW_NAMES@),
            WeaponType::Rod => texts_of(ROD_NAMES@),
            WeaponType::Claw => texts_of(CLAW_NAMES@),
            WeaponType::Daggers => texts_of(DAGGERS_NAMES@),
        }
    }

    /// The names of this weapon type, in the order of its table.
    fn generate_name(&self) -> (names: Vec<&'static str>) {
        match self {
            WeaponType::Mace => slice_to_vec(MACE_NAMES.as_slice()),
            WeaponType::Bow => slice_to_vec(BOW_NAMES.as_slice()),
            WeaponType::Rod => slice_to_vec(ROD_NAMES.as_slice()),
            WeaponType::Claw => slice_to_vec(CLAW_NAMES.as_slice()),
            WeaponType::Daggers => slice_to_vec(DAGGERS_NAMES.as_slice()),
        }
    }

    /// One of the names of this weapon type, picked at random. Every
    /// weapon type has names, so there always is one to give.
    fn auto_name(&self) -> (name: Result<&'static str, ComponentError>)
        ensures
            name is Ok,
    {
        let names = self.generate_name();
        let picked = choose_name(&names);
        proof {
            assert(texts_of(names@).len() == names@.len());
            assert(self.name_table().len() >= 3);
            if let Some(p) = picked {
                let i = choose|i: int| 0 <= i < names@.len() && #[trigger] names@[i]@ == p@;
                assert(texts_of(names@)[i] == p@);
            }
        }
        name_from_pick(picked)
    }
}

/// Whether two strings hold the same text. Both are copied for the
/// comparison, which name tables of a few short names can afford.
fn same_text(left: &str, right: &str) -> (same: bool)
    ensures
        same == (left@ == right@),
{
    left.to_owned() == right.to_owned()
}

/// Whether `names` lists `name`.
fn lists(names: &Vec<&'static str>, name: &str) -> (listed: bool)
    ensures
        listed == texts_of(names@).contains(name@),
{
    let mut at: usize = 0;
    while at < names.len()
        invariant
            at <= names@.len(),
            forall|i: int| 0 <= i < at ==> texts_of(names@)[i] != name@,
        decreases names@.len() - at,
    {
        if same_text(names[at], name) {
            assert(texts_of(names@)[at as int] == name@);
            return true;
        }
        at = at + 1;
    }
    false
}

/// A weapon as plain data: its type, its rarity, the text of its name and
/// its identifier.
pub struct WeaponModel {
    pub weapon_type: WeaponType,
    pub rarity: ItemRarity,
    pub name: Seq<char>,
    pub id: u8,
}

/// The weapon that the given draws stand for: one of type `item_type` that
/// carries `name`, has the rarity of `rarity_roll` and the identifier `id`.
/// A name that `item_type` does not list stands for no weapon and is a
/// `ConfigurationError`.
pub open spec fn assembled(item_type: WeaponType, name: Seq<char>, rarity_roll: u32, id: u8) -> Result<
    WeaponModel,
    ComponentError,
> {
    if item_type.name_table().contains(name) {
        Ok(WeaponModel { weapon_type: item_type, rarity: rarity_of_roll(rarity_roll), name, id })
    } else {
        Err(ComponentError::ConfigurationError)
    }
}

/// A weapon. Its name is always one that its type lists.
#[derive(Clone, Copy, Debug, PartialEq, Eq)]
pub struct Weapon {
    weapon_type: WeaponType,
    rarity: ItemRarity,
    name: &'static str,
    id: u8,
}

impl View for Weapon {
    type V = WeaponModel;

    closed spec fn view(&self) -> WeaponModel {
        WeaponModel {
            weapon_type: self.weapon_type,
            rarity: self.rarity,
            name: self.name@,
            id: self.id,
        }
    }
}

impl Default for Weapon {
    /// A randomly rolled weapon of the starter type.
    fn default() -> (weapon: Weapon)
        ensures
            weapon@.weapon_type == WeaponType::Bow,
            WeaponType::Bow.name_table().contains(weapon@.name),
    {
        Weapon::new(WeaponType::default())
    }
}

impl Weapon {
    /// A weapon carries a name from the table of its type.
    #[verifier::type_invariant]
    pub open spec fn wf(self) -> bool {
        self@.weapon_type.name_table().contains(self@.name)
    }

    /// Rolls a weapon of the given type: its name is picked at random from
    /// the names of that type, and its rarity and identifier are drawn at
    /// random.
    ///
    /// Whatever is drawn, the weapon is the one that [`Weapon::assemble`]
    /// makes of the draws: of the type asked for, under a name that the type
    /// lists, and of the rarity of a roll up to [`ItemRarity::TOP_ROLL`].
    pub fn new(item_type: WeaponType) -> (weapon: Weapon)
        ensures
            weapon@.weapon_type == item_type,
            item_type.name_table().contains(weapon@.name),
            exists|roll: u32|
                roll <= ItemRarity::TOP_ROLL && #[trigger] assembled(
                    item_type,
                    weapon@.name,
                    roll,
                    weapon@.id,
                ) == Ok::<WeaponModel, ComponentError>(weapon@),
    {
        let name = item_type.auto_name().unwrap();
        let rarity = ItemRarity::random();
        let id = random_byte();
        let weapon = Weapon { weapon_type: item_type, rarity, name, id };
        proof {
            let roll = choose|roll: u32|
                roll <= ItemRarity::TOP_ROLL && rarity == #[trigger] rarity_of_roll(roll);
            assert(assembled(item_type, weapon@.name, roll, weapon@.id) == Ok::<
                WeaponModel,
                ComponentError,
            >(weapon@));
        }
        weapon
    }

    /// Builds the weapon that the given draws stand for: a weapon of type
    /// `item_type` that carries `name`, has the rarity of `rarity_roll` and
    /// the identifier `id`.
    ///
    /// A name that `item_type` does not list is refused with
    /// `ConfigurationError`.
    pub fn assemble(item_type: WeaponType, name: &'static str, rarity_roll: u32, id: u8) -> (made:
        Result<Weapon, ComponentError>)
        ensures
            match assembled(item_type, name@, rarity_roll, id) {
                Ok(model) => made matches Ok(weapon) && weapon@ == model,
                Err(e) => made == Err::<Weapon, ComponentError>(e),
            },
    {
        let names = item_type.generate_name();
        if lists(&names, name) {
            Ok(Weapon { weapon_type: item_type, rarity: ItemRarity::from_roll(rarity_roll), name, id })
        } else {
            Err(ComponentError::ConfigurationError)
        }
    }

    /// The type of the weapon.
    pub fn weapon_type(&self) -> (weapon_type: WeaponType)
        ensures
            weapon_type == self@.weapon_type,
    {
        self.weapon_type
    }
}

impl Item for Weapon {
    /// The name of the weapon: one that its type lists.
    fn name(&self) -> (name: &'static str)
        ensures
            name@ == self@.name,
            self@.weapon_type.name_table().contains(name@),
    {
        proof {
            use_type_invariant(self);
        }
        self.name
    }

    /// The identifier that the weapon was rolled with.
    fn id(&self) -> (id: u8)
        ensures
            id == self@.id,
    {
        self.id
    }

    /// A weapon is an item of the kind `Weapon`.
    fn item_type(&self) -> (item_type: ItemType)
        ensures
            item_type == ItemType::Weapon,
    {
        ItemType::Weapon
    }

    /// How rare the weapon is.
    fn rarity(&self) -> (rarity: ItemRarity)
        ensures
            rarity == self@.rarity,
    {
        self.rarity
    }
}

/// Every weapon type has names to give: no name table is empty.
pub proof fn lemma_name_tables_not_empty(weapon_type: WeaponType)
    ensures
        weapon_type.name_table().len() > 0,
{
}

/// No two weapon types share a name: a name that one type lists is listed
/// by no other.
pub proof fn lemma_name_tables_disjoint(first: WeaponType, second: WeaponType, name: Seq<char>)
    requires
        first != second,
        first.name_table().contains(name),
    ensures
        !second.name_table().contains(name),
{
    reveal_strlit("Threaded Needle");
    reveal_strlit("Jotunn'a Vigor");
    reveal_strlit("Hydras");
    reveal_strlit("Scream");
    reveal_strlit("Sorrowbane");
    reveal_strlit("Death's whisper");
    reveal_strlit("Underlight Angler");
    reveal_strlit("Bancrofts");
    reveal_strlit("Arondight");
    reveal_strlit("Hope");
    reveal_strlit("Thnuderlord");
    reveal_strlit("Throns");
    reveal_strlit("Divine Ruin");
    reveal_strlit("Katana");
    reveal_strlit("Wind Deamon");
    reveal_strlit("Serrated Edge");
    reveal_strlit("Soul Eater");
    let theirs = second.name_table();
    let i = choose|i: int| 0 <= i < first.name_table().len() && first.name_table()[i] == name;
    assert forall|j: int| 0 <= j < theirs.len() implies theirs[j] != name by {
        // Names of different types differ in length, in their first letter
        // or in their third.
        assert(name.len() > 2);
        assert(theirs[j].len() != name.len() || theirs[j][0] != name[0] || theirs[j][2]
            != name[2]);
    }
}

} // verus!
