use combat_core::data::{AmmoType, WeaponType};
use combat_core::inventory::{Inventory, InventoryItem, StackEntry, StackKind, WeaponSlot};

#[test]
fn default_inventory_is_empty() {
    let inv = Inventory::default();
    assert!(!inv.has_weapon());
    assert!(inv.get_primary_weapon().is_none());
    assert!(inv.get_secondary_weapon().is_none());
    assert!(inv.get_items().is_empty());
    assert_eq!(inv.size, 10);
}

#[test]
fn add_weapon_to_empty_loadout_fills_selected_slot() {
    // empty loadout, add weapon item: the selected slot now holds that
    // weapon with a full magazine and has_weapon is true
    let mut inv = Inventory::default();
    assert!(inv.add_item(InventoryItem::Weapon(WeaponType::Pistol, 10)));
    assert!(inv.has_weapon());
    let w = inv.get_selected_weapon_item().expect("selected slot must hold the weapon");
    assert_eq!(w.weapon_type, WeaponType::Pistol);
    assert_eq!(w.ammo_count, 10);
    assert_eq!(w.last_fire_ts, 0);
    assert!(inv.get_primary_weapon().is_some());
    assert!(inv.get_secondary_weapon().is_none());
}

#[test]
fn add_second_weapon_fills_other_slot() {
    let mut inv = Inventory::default();
    assert!(inv.add_item(InventoryItem::Weapon(WeaponType::Pistol, 10)));
    assert!(inv.add_item(InventoryItem::Weapon(WeaponType::Pistol, 7)));
    assert_eq!(inv.get_primary_weapon().unwrap().ammo_count, 10);
    assert_eq!(inv.get_secondary_weapon().unwrap().ammo_count, 7);
}

#[test]
fn add_weapon_to_full_loadout_fails_and_changes_nothing() {
    let mut inv = Inventory::default();
    assert!(inv.add_item(InventoryItem::Weapon(WeaponType::Pistol, 10)));
    assert!(inv.add_item(InventoryItem::Weapon(WeaponType::Pistol, 7)));
    assert!(!inv.add_item(InventoryItem::Weapon(WeaponType::Pistol, 3)));
    assert_eq!(inv.get_primary_weapon().unwrap().ammo_count, 10);
    assert_eq!(inv.get_secondary_weapon().unwrap().ammo_count, 7);
    assert_eq!(inv.selected_weapon, WeaponSlot::Primary);
}

#[test]
fn ammo_stacks_by_kind_up_to_its_cap() {
    // light ammunition caps at fifty rounds: two pickups of twenty stack
    // to forty in one slot, a third fails and leaves the count unchanged
    let mut inv = Inventory::default();
    assert!(inv.add_item(InventoryItem::Ammo(AmmoType::Light, 20)));
    assert!(inv.add_item(InventoryItem::Ammo(AmmoType::Light, 20)));
    assert_eq!(inv.get_items().len(), 1);
    assert_eq!(inv.get_items()[0], StackEntry { kind: StackKind::Ammo(AmmoType::Light), count: 40 });
    assert!(!inv.add_item(InventoryItem::Ammo(AmmoType::Light, 20)));
    assert_eq!(inv.get_items()[0].count, 40);
    // topping up to exactly the cap still succeeds, one more round fails
    assert!(inv.add_item(InventoryItem::Ammo(AmmoType::Light, 10)));
    assert_eq!(inv.get_items()[0].count, 50);
    assert!(!inv.add_item(InventoryItem::Ammo(AmmoType::Light, 1)));
    assert_eq!(inv.get_items()[0].count, 50);
}

#[test]
fn new_stack_kinds_fail_once_all_slots_are_taken() {
    // a two-slot inventory: two kinds fit, a third kind is rejected and
    // nothing changes, while carried kinds still stack
    let mut inv = Inventory {
        primary: None,
        secondary: None,
        selected_weapon: WeaponSlot::Primary,
        size: 2,
        items: Vec::new(),
    };
    assert!(inv.add_item(InventoryItem::Ammo(AmmoType::Light, 20)));
    assert!(inv.add_item(InventoryItem::Throwable));
    assert!(!inv.add_item(InventoryItem::Consumable));
    assert_eq!(inv.get_items().len(), 2);
    assert!(inv.add_item(InventoryItem::Throwable));
    assert_eq!(inv.get_items()[1], StackEntry { kind: StackKind::Throwable, count: 2 });
}

#[test]
fn stackables_do_not_touch_weapon_slots() {
    let mut inv = Inventory::default();
    assert!(inv.add_item(InventoryItem::Throwable));
    assert!(inv.add_item(InventoryItem::Consumable));
    assert!(!inv.has_weapon());
    assert_eq!(inv.get_items().len(), 2);
    assert_eq!(inv.get_items()[0], StackEntry { kind: StackKind::Throwable, count: 1 });
    assert_eq!(inv.get_items()[1], StackEntry { kind: StackKind::Consumable, count: 1 });
}

#[test]
fn select_is_unconditional_and_idempotent() {
    let mut inv = Inventory::default();
    inv.set_selected_weapon(WeaponSlot::Secondary);
    assert_eq!(inv.selected_weapon, WeaponSlot::Secondary);
    inv.set_selected_weapon(WeaponSlot::Secondary);
    assert_eq!(inv.selected_weapon, WeaponSlot::Secondary);
    assert!(inv.get_selected_weapon_item().is_none());
}

#[test]
fn toggle_swaps_between_the_two_slots() {
    let mut inv = Inventory::default();
    assert_eq!(inv.selected_weapon, WeaponSlot::Primary);
    inv.toggle_selected_weapon();
    assert_eq!(inv.selected_weapon, WeaponSlot::Secondary);
    inv.toggle_selected_weapon();
    assert_eq!(inv.selected_weapon, WeaponSlot::Primary);
}

#[test]
fn weapon_lands_in_selected_slot_when_secondary_selected() {
    let mut inv = Inventory::default();
    inv.set_selected_weapon(WeaponSlot::Secondary);
    assert!(inv.add_item(InventoryItem::Weapon(WeaponType::Pistol, 10)));
    assert!(inv.get_secondary_weapon().is_some());
    assert!(inv.get_primary_weapon().is_none());
}
