use character_model::inventory::INVENTORY_SIZE;
use character_model::{ComponentError, Inventory, Item, Weapon, WeaponType};

#[test]
fn a_fresh_inventory_is_empty() {
    let inventory = Inventory::new();
    assert_eq!(INVENTORY_SIZE, 50);
    assert!(inventory.get_weapons().is_empty());
    assert!(!inventory.is_full());
    assert!(inventory.is_empty());
    assert!(Inventory::default().get_weapons().is_empty());
}

#[test]
fn weapons_stay_in_the_order_they_were_put_in() {
    let mut inventory = Inventory::new();
    let first = Weapon::assemble(WeaponType::Mace, "Hydras", 0, 1).unwrap();
    let second = Weapon::assemble(WeaponType::Rod, "Hope", 1, 2).unwrap();
    let third = Weapon::assemble(WeaponType::Claw, "Throns", 2, 3).unwrap();
    assert_eq!(inventory.put_weapon(&first), Ok(()));
    assert_eq!(inventory.put_weapon(&second), Ok(()));
    assert_eq!(inventory.put_weapon(&third), Ok(()));
    assert_eq!(inventory.get_weapons(), vec![first, second, third]);
}

#[test]
fn the_inventory_takes_fifty_weapons_and_no_more() {
    let mut inventory = Inventory::new();
    let mut put = Vec::new();
    for id in 0..50u8 {
        assert!(!inventory.is_full());
        assert!(inventory.is_empty());
        let weapon = Weapon::assemble(WeaponType::Daggers, "Katana", 0, id).unwrap();
        assert_eq!(inventory.put_weapon(&weapon), Ok(()));
        put.push(weapon);
        assert_eq!(inventory.get_weapons().len(), usize::from(id) + 1);
    }
    assert!(inventory.is_full());
    assert!(!inventory.is_empty());
    let extra = Weapon::assemble(WeaponType::Bow, "Scream", 0, 50).unwrap();
    assert_eq!(inventory.put_weapon(&extra), Err(ComponentError::InventoryFull));
    assert_eq!(inventory.get_weapons().len(), 50);
    assert_eq!(inventory.get_weapons(), put);
    assert_eq!(inventory.put_weapon(&extra), Err(ComponentError::InventoryFull));
    assert_eq!(inventory.get_weapons().len(), 50);
}

#[test]
fn the_weapons_handed_out_are_a_copy() {
    let mut inventory = Inventory::new();
    let weapon = Weapon::new(WeaponType::Bow);
    inventory.put_weapon(&weapon).unwrap();
    let mut listed = inventory.get_weapons();
    listed.clear();
    assert_eq!(inventory.get_weapons(), vec![weapon]);
}

#[test]
fn a_clone_has_the_same_weapons_and_its_own_room() {
    let mut inventory = Inventory::new();
    let weapon = Weapon::assemble(WeaponType::Rod, "Arondight", 1, 9).unwrap();
    inventory.put_weapon(&weapon).unwrap();
    let mut copy = inventory.clone();
    assert_eq!(copy.get_weapons(), vec![weapon]);
    copy.put_weapon(&weapon).unwrap();
    assert_eq!(copy.get_weapons().len(), 2);
    assert_eq!(inventory.get_weapons().len(), 1);
    assert_eq!(inventory.get_weapons()[0].id(), 9);
}
