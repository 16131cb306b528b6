//! The inventory of a character: a bounded, ordered collection of weapons.

use vstd::prelude::*;
use crate::error::ComponentError;
use crate::weapon::Weapon;

verus! {

/// How many weapons a fresh inventory has room for.
pub const INVENTORY_SIZE: u32 = 50;

/// What putting `weapon` into an inventory that holds `weapons` and has room
/// for `capacity` of them leads to: the weapons with the new one at the end,
/// or `InventoryFull` where there is no room left.
pub open spec fn stored(weapons: Seq<Weapon>, capacity: nat, weapon: Weapon) -> Result<
    Seq<Weapon>,
    ComponentError,
> {
    if weapons.len() >= capacity {
        Err(ComponentError::InventoryFull)
    } else {
        Ok(weapons.push(weapon))
    }
}

/// What putting the weapons of `more`, one after the other, into an
/// inventory that holds `weapons` leads to: all of them stored in order, or
/// the refusal of the first one that no longer fits.
pub open spec fn stored_all(weapons: Seq<Weapon>, capacity: nat, more: Seq<Weapon>) -> Result<
    Seq<Weapon>,
    ComponentError,
>
    decreases more.len(),
{
    if more.len() == 0 {
        Ok(weapons)
    } else {
        match stored(weapons, capacity, more.first()) {
            Ok(grown) => stored_all(grown, capacity, more.drop_first()),
            Err(e) => Err(e),
        }
    }
}

/// An inventory: the weapons a character owns, in the order in which they
/// were put in, and never more of them than the inventory has room for.
///
/// Its model (`inventory@`) is the sequence of its weapons.
#[derive(Debug)]
pub struct Inventory {
    weapons: Vec<Weapon>,
    max_size: u32,
}

impl View for Inventory {
    type V = Seq<Weapon>;

    closed spec fn view(&self) -> Seq<Weapon> {
        self.weapons@
    }
}

impl Default for Inventory {
    /// An empty inventory with room for [`INVENTORY_SIZE`] weapons.
    fn default() -> (inventory: Inventory)
        ensures
            inventory@ == Seq::<Weapon>::empty(),
            inventory.capacity() == INVENTORY_SIZE,
    {
        Inventory { weapons: Vec::new(), max_size: INVENTORY_SIZE }
    }
}

impl Clone for Inventory {
    /// An inventory with the same weapons in the same order, and the same
    /// room.
    fn clone(&self) -> (copy: Inventory)
        ensures
            copy@ == self@,
            copy.capacity() == self.capacity(),
    {
        proof {
            use_type_invariant(self);
        }
        Inventory { weapons: self.get_weapons(), max_size: self.max_size }
    }
}

impl Inventory {
    /// How many weapons the inventory has room for.
    pub closed spec fn capacity(&self) -> nat {
        self.max_size as nat
    }

    /// An inventory never holds more weapons than it has room for.
    #[verifier::type_invariant]
    pub open spec fn wf(self) -> bool {
        self@.len() <= self.capacity()
    }

    /// Creates an empty inventory with room for [`INVENTORY_SIZE`] weapons.
    pub fn new() -> (inventory: Inventory)
        ensures
            inventory@ == Seq::<Weapon>::empty(),
            inventory.capacity() == INVENTORY_SIZE,
    {
        Inventory { weapons: Vec::new(), max_size: INVENTORY_SIZE }
    }

    /// Whether there is room for another weapon: the opposite of
    /// [`Inventory::is_full`].
    pub fn is_empty(&self) -> (roomy: bool)
        ensures
            roomy == (self@.len() < self.capacity()),
    {
        !self.is_full()
    }

    /// Whether the inventory holds as many weapons as it has room for.
    pub fn is_full(&self) -> (full: bool)
        ensures
            full == (self@.len() >= self.capacity()),
            full == (self@.len() == self.capacity()),
    {
        proof {
            use_type_invariant(self);
        }
        self.weapons.len() >= self.max_size as usize
    }

    /// The weapons of the inventory, in the order in which they were put in.
    /// What is returned is a copy: changing it does not change the inventory.
    pub fn get_weapons(&self) -> (weapons: Vec<Weapon>)
        ensures
            weapons@ == self@,
    {
        let mut weapons: Vec<Weapon> = Vec::new();
        let mut at: usize = 0;
        while at < self.weapons.len()
            invariant
                at <= self.weapons@.len(),
                weapons@ == self.weapons@.take(at as int),
            decreases self.weapons@.len() - at,
        {
            weapons.push(self.weapons[at]);
            at = at + 1;
        }
        weapons
    }

    /// Puts `weapon` at the end of the inventory.
    ///
    /// A full inventory is left as it is and the call is refused with
    /// `InventoryFull`.
    pub fn put_weapon(&mut self, weapon: &Weapon) -> (done: Result<(), ComponentError>)
        ensures
            final(self).capacity() == old(self).capacity(),
            match stored(old(self)@, old(self).capacity(), *weapon) {
                Ok(grown) => final(self)@ == grown && done == Ok::<(), ComponentError>(()),
                Err(e) => final(self)@ == old(self)@ && done == Err::<(), ComponentError>(e),
            },
    {
        if self.is_full() {
            return Err(ComponentError::InventoryFull);
        }
        // The weapons leave the inventory while they grow by one, so that the
        // inventory is never seen with a half-done change.
        let mut weapons: Vec<Weapon> = Vec::new();
        std::mem::swap(&mut self.weapons, &mut weapons);
        weapons.push(*weapon);
        std::mem::swap(&mut self.weapons, &mut weapons);
        Ok(())
    }
}

/// Putting weapons in one after the other appends them in order, as long as
/// every one of them fits: where `stored_all` succeeds, what it leaves is the
/// old weapons followed by the new ones, and that is no more than the
/// inventory has room for.
pub proof fn lemma_stored_all_appends(weapons: Seq<Weapon>, capacity: nat, more: Seq<Weapon>)
    requires
        weapons.len() <= capacity,
    ensures
        stored_all(weapons, capacity, more) is Ok <==> weapons.len() + more.len() <= capacity,
        stored_all(weapons, capacity, more) matches Ok(grown) ==> grown == weapons + more,
        stored_all(weapons, capacity, more) matches Err(e) ==> e == ComponentError::InventoryFull,
    decreases more.len(),
{
    if more.len() == 0 {
        assert(weapons + more =~= weapons);
    } else if weapons.len() < capacity {
        let grown = weapons.push(more.first());
        lemma_stored_all_appends(grown, capacity, more.drop_first());
        assert(grown + more.drop_first() =~= weapons + more);
    }
}

/// An inventory with room for `capacity` weapons takes exactly that many:
/// once `capacity` weapons in a row have been put in, each with success, the
/// inventory holds them and nothing else, the next `put_weapon` is refused
/// with `InventoryFull`, and the inventory still holds `capacity` weapons.
pub proof fn lemma_full_after_capacity(
    weapons: Seq<Weapon>,
    capacity: nat,
    more: Seq<Weapon>,
    extra: Weapon,
)
    requires
        weapons.len() <= capacity,
        more.len() == capacity,
        stored_all(weapons, capacity, more) is Ok,
    ensures
        stored_all(weapons, capacity, more) == Ok::<Seq<Weapon>, ComponentError>(more),
        more.len() == capacity,
        stored(more, capacity, extra) == Err::<Seq<Weapon>, ComponentError>(
            ComponentError::InventoryFull,
        ),
{
    lemma_stored_all_appends(weapons, capacity, more);
    assert(weapons + more =~= more);
}

} // verus!
